use e_chess::bitboard_extensions::BitBoard;
use e_chess::chess_connector::{ChessConnector, LocalChessConnector};
use e_chess::game::ChessGame;
use e_chess::game_events::same_state;
use e_chess::led_display::{frame, DisplayState, LedRole};
use e_chess::render::{highlight, Highlight};
use e_chess::web_form::{board_html, game_data};

fn started() -> ChessGame {
    let mut chess = ChessGame::new(LocalChessConnector::new()).unwrap();
    chess.reset("").unwrap();
    let start = chess.expected_physical();
    chess.tick(start).unwrap();
    chess
}

#[test]
fn no_game_has_no_picture() {
    let chess = ChessGame::new(LocalChessConnector::new()).unwrap();
    assert_eq!(chess.render(), "No game");
}

#[test]
fn picture_of_the_start_position() {
    let chess = started();
    let picture = chess.render();
    let lines: Vec<&str> = picture.lines().collect();
    assert_eq!(lines[0], "White to move");
    assert_eq!(lines[1], "No action in progress");
    assert_eq!(lines[3], "FEN: rnbqkbnr/pppppppp/8/8/8/8/PPPPPPPP/RNBQKBNR w KQkq - 0 1");
    assert_eq!(lines[6], "♙ = white");
    assert_eq!(lines[12], "8  ♜  ♞  ♝  ♛  ♚  ♝  ♞  ♜ ");
    assert_eq!(lines[15], "5                         ");
    assert_eq!(lines[19], "1  ♖  ♘  ♗  ♕  ♔  ♗  ♘  ♖ ");
    assert_eq!(lines[21], "   a  b  c  d  e  f  g  h ");
}

#[test]
fn picture_of_a_lifted_piece() {
    let mut chess = started();
    let lifted = chess.expected_physical().xor(BitBoard::from_square(12));
    chess.tick(lifted).unwrap();
    let picture = chess.render();
    assert_eq!(picture.lines().nth(1).unwrap(), "Moving piece: Pawn at Square(12)");
    let state = chess.get_state().unwrap();
    assert!(highlight(&state, 12) == Highlight::Moving);
    assert!(highlight(&state, 20) == Highlight::Target);
    assert!(highlight(&state, 28) == Highlight::Target);
    assert!(highlight(&state, 0) == Highlight::Plain { light: true });
    assert!(highlight(&state, 1) == Highlight::Plain { light: false });
    let leds = frame(&state);
    assert!(leds[e_chess::led_display::get_pixel(20)] == LedRole::Possible);
    assert!(leds[e_chess::led_display::get_pixel(12)] == LedRole::Moving);
    assert!(leds[e_chess::led_display::get_pixel(0)] == LedRole::Off);
}

#[test]
fn leds_are_redrawn_only_on_change() {
    let chess = started();
    let state = chess.get_state().unwrap();
    let mut display = DisplayState::new();
    assert!(display.tick(None).is_none());
    let first = display.tick(Some(&state)).unwrap();
    assert!(first.iter().all(|r| *r == LedRole::Off));
    assert!(display.tick(Some(&state)).is_none());
    assert!(same_state(&state, &chess.get_state().unwrap()));
}

#[test]
fn web_board_and_game_data() {
    let chess = started();
    let state = chess.get_state().unwrap();
    let html = board_html(&state.current_position);
    assert!(html.starts_with("<table><tr><td class='coord'>8</td><td class='light-square'><span class='black-piece'>♜</span></td>"));
    assert!(html.contains("<tr><td class='coord'>4</td><td class='light-square'></td><td class='dark-square'></td>"));
    assert!(html.ends_with("<td class='coord'>h</td></tr></table>"));
    let data = game_data(Some(&state), "local");
    assert!(data.is_loaded);
    assert_eq!(data.status, "In progress");
    assert_eq!(data.active_player, "White");
    assert_eq!(data.game_key, "local");
    assert_eq!(data.board_html, html);
    let empty = game_data(Some(&state), "");
    assert!(!empty.is_loaded);
    assert!(empty.board_html.is_empty());
}

#[test]
fn the_local_connector() {
    let mut connector = LocalChessConnector;
    let games = connector.find_open_games().unwrap();
    assert_eq!(games.len(), 1);
    assert_eq!(games[0].game_id, "rnbqkbnr/pppppppp/8/8/8/8/PPPPPPPP/RNBQKBNR w KQkq - 0 1");
    assert_eq!(games[0].opponent.id, "local_opponent");
    assert_eq!(games[0].opponent.username, "Local Opponent");
    let game = connector.load_game("8/8/8/8/8/8/8/K6k w - - 0 1").unwrap();
    assert_eq!(game.current_position().fen(), "rnbqkbnr/pppppppp/8/8/8/8/PPPPPPPP/RNBQKBNR w KQkq - 0 1");
    assert!(game.actions().is_empty());
    assert!(connector.make_move(e_chess::position::ChessMove::new(0, 1, None)));
    assert!(matches!(connector.next_event(), Ok(None)));
}

#[test]
fn server_moves_are_played() {
    let mut chess = started();
    chess.play_server_move(&"e2e4".to_string()).unwrap();
    let state = chess.get_state().unwrap();
    assert_eq!(state.current_position.fen(), "rnbqkbnr/pppppppp/8/8/4P3/8/PPPP1PPP/RNBQKBNR b KQkq - 0 1");
    assert_eq!(state.expected_physical.0, 0xFFFF_0000_1000_EFFF);
    match chess.play_server_move(&"zz".to_string()) {
        Err(e_chess::game::ChessGameError::LoadingFen(t)) => assert_eq!(t, "zz"),
        _ => panic!("text that is no move must be refused"),
    }
    // An illegal move is passed over but still counted as the server's.
    chess.play_server_move(&"a1a8".to_string()).unwrap();
    assert_eq!(chess.get_state().unwrap().current_position.fen(), state.current_position.fen());
}

#[test]
fn three_presses_return_to_the_first_page() {
    let mut screen = e_chess::eink::EinkState::new();
    for _ in 0..3 {
        assert!(screen.tick(true, None).is_some());
    }
    assert!(screen.tick(false, None).is_none());
}
