# e_chess

The logic of a physical chess board that plays online games (on lichess.org, through a
phone over BLE) and local games, verified with Verus.

- `src/` is the library. Every function in it is verified against its contract, except
  the trusted items that call outside code (the `chess` crate for the rules of chess,
  `serde_json` for JSON, `urlencoding`, `heapless`, `debouncr`, and `std`'s channels,
  locks and text functions);
  each of those says in its doc comment what it claims.
  - `game`, `history`, `position`, `fen`, `render`: the game on the board — which squares
    should hold a piece, how lifting and placing pieces makes moves, how events of the
    server are taken in, and its picture.
  - `chess_connector`, `lichess`, `json`, `requester`, `request`: where games come from.
  - `bluetooth`, `bridge`, `game_handler`, `game_events`, `game_loop`, `event_manager`,
    `ota`: the game thread's decisions and the BLE
    protocol of the board (framing, requests bridged through the phone, firmware updates).
  - `board_scan`, `led_display`, `eink`, `web_form`, `esp_requester`: the board's hardware
    and web pages, as the decisions taken on what the hardware gives and gets.
  - `bitboard`, `bitboard_extensions`, `tic_tac_toe`, `simulator`, `text`, `sync`.
- `tests/` runs the library on concrete values.
- `app/` is the board simulator (`take b5`, `put b5`) with HTTP requests, and the threads
  and JSON framing of the board's BLE service.
