//! The connector to lichess.org: open games, the stream of a game, and moves, over a
//! `Requester`. The JSON of lichess is read with `serde_json` (see `json`); what the
//! connector takes from it is decided here.
use vstd::prelude::*;
use std::sync::mpsc::{Receiver, Sender};
use crate::chess_connector::{
    ChessConnector, ChessConnectorError, GameEvent, GameState, OngoingGame, PlayerInfo,
};
use crate::history::{after_move, GameRecord, GameView};
use crate::json::{as_text, get_member, member, parse_json, text_of, Json, json_of};
use crate::position::{
    board_from_fen, fen_board, move_from_uci, parse_uci_parts, start_fen, ChessMove, Piece,
};
use crate::requester::{ErrorMessage, Requester};
use crate::sync::{channel, clone_sender, recv, try_recv};
use crate::text::{join_text, push_text, same_text, split_words, string_of, words};
use vstd::utf8::is_ascii_chars;

verus! {

broadcast use vstd::string::group_string_axioms;

/// The name of a square, such as `e2`.
pub open spec fn square_text(square: u8) -> Seq<char> {
    seq![(97 + square % 8) as char, (49 + square / 8) as char]
}

/// The letter of a promotion piece (lower case), if any.
pub open spec fn promotion_text(p: Option<Piece>) -> Seq<char> {
    match p {
        None => Seq::empty(),
        Some(Piece::Pawn) => seq!['p'],
        Some(Piece::Knight) => seq!['n'],
        Some(Piece::Bishop) => seq!['b'],
        Some(Piece::Rook) => seq!['r'],
        Some(Piece::Queen) => seq!['q'],
        Some(Piece::King) => seq!['k'],
    }
}

/// The UCI text of a move (`chess::ChessMove`'s `Display`), such as `e7e8q`.
pub open spec fn uci(m: ChessMove) -> Seq<char> {
    square_text(m.source) + square_text(m.dest) + promotion_text(m.promotion)
}

/// The UCI text of a move.
pub fn uci_text(m: &ChessMove) -> (r: String)
    requires
        m.wf(),
    ensures
        r@ == uci(*m),
{
    let mut v: Vec<char> = Vec::new();
    v.push((97u8 + m.source % 8) as char);
    v.push((49u8 + m.source / 8) as char);
    v.push((97u8 + m.dest % 8) as char);
    v.push((49u8 + m.dest / 8) as char);
    match m.promotion {
        None => {},
        Some(Piece::Pawn) => v.push('p'),
        Some(Piece::Knight) => v.push('n'),
        Some(Piece::Bishop) => v.push('b'),
        Some(Piece::Rook) => v.push('r'),
        Some(Piece::Queen) => v.push('q'),
        Some(Piece::King) => v.push('k'),
    }
    assert(v@ =~= uci(*m));
    string_of(v.as_slice())
}

/// A state of a game as lichess sends it.
#[derive(Debug)]
pub struct LichessGameState {
    pub event_type: String,
    pub moves: String,
    pub wtime: u64,
    pub btime: u64,
    pub winc: u64,
    pub binc: u64,
    pub status: String,
    pub wtakeback: Option<bool>,
    pub btakeback: Option<bool>,
}

/// A game as lichess sends it first on its stream.
#[derive(Debug)]
pub struct LichessGameResponse {
    pub id: String,
    pub initial_fen: String,
    pub state: LichessGameState,
}

/// A message of the stream of a game.
#[derive(Debug)]
pub enum LichessResponse {
    GameState(LichessGameState),
    Game(LichessGameResponse),
    Other,
}

/// The text of a member that is a string.
pub open spec fn text_member(j: Json, key: Seq<char>) -> Option<Seq<char>> {
    match member(j, key) {
        Some(v) => as_text(v),
        None => None,
    }
}

/// The value of a member that is an unsigned 64-bit integer.
pub open spec fn number_member(j: Json, key: Seq<char>) -> Option<u64> {
    match member(j, key) {
        Some(Json::Number(Some(n))) => Some(n),
        _ => None,
    }
}

/// The value of an optional flag: absent or null is `Some(None)`, a boolean is
/// `Some(Some(b))`, anything else does not fit (`None`).
pub open spec fn flag_member(j: Json, key: Seq<char>) -> Option<Option<bool>> {
    match member(j, key) {
        None => Some(None),
        Some(Json::Null) => Some(None),
        Some(Json::Bool(b)) => Some(Some(b)),
        _ => None,
    }
}

/// `j` is an object that holds a game state: `type`, `moves` and `status` strings,
/// `wtime`, `btime`, `winc` and `binc` unsigned integers, and optional `wtakeback` and
/// `btakeback` flags.
pub open spec fn is_game_state(j: Json) -> bool {
    &&& j is Object
    &&& text_member(j, "type"@) is Some
    &&& text_member(j, "moves"@) is Some
    &&& number_member(j, "wtime"@) is Some
    &&& number_member(j, "btime"@) is Some
    &&& number_member(j, "winc"@) is Some
    &&& number_member(j, "binc"@) is Some
    &&& text_member(j, "status"@) is Some
    &&& flag_member(j, "wtakeback"@) is Some
    &&& flag_member(j, "btakeback"@) is Some
}

/// The game state holds the members of `j`.
pub open spec fn state_of(j: Json, s: LichessGameState) -> bool {
    &&& text_member(j, "type"@) == Some(s.event_type@)
    &&& text_member(j, "moves"@) == Some(s.moves@)
    &&& number_member(j, "wtime"@) == Some(s.wtime)
    &&& number_member(j, "btime"@) == Some(s.btime)
    &&& number_member(j, "winc"@) == Some(s.winc)
    &&& number_member(j, "binc"@) == Some(s.binc)
    &&& text_member(j, "status"@) == Some(s.status@)
    &&& flag_member(j, "wtakeback"@) == Some(s.wtakeback)
    &&& flag_member(j, "btakeback"@) == Some(s.btakeback)
}

fn text_member_of(j: &Json, key: &str) -> (r: Option<String>)
    ensures
        match r {
            Some(s) => text_member(*j, key@) == Some(s@),
            None => text_member(*j, key@) is None,
        },
{
    match get_member(j, key) {
        Some(v) => text_of(v),
        None => None,
    }
}

fn number_member_of(j: &Json, key: &str) -> (r: Option<u64>)
    ensures
        r == number_member(*j, key@),
{
    match get_member(j, key) {
        Some(Json::Number(Some(n))) => Some(*n),
        _ => None,
    }
}

fn flag_member_of(j: &Json, key: &str) -> (r: Option<Option<bool>>)
    ensures
        r == flag_member(*j, key@),
{
    match get_member(j, key) {
        None => Some(None),
        Some(Json::Null) => Some(None),
        Some(Json::Bool(b)) => Some(Some(*b)),
        _ => None,
    }
}

/// Reads a game state from `j`.
pub fn decode_state(j: &Json) -> (r: Option<LichessGameState>)
    ensures
        r is Some <==> is_game_state(*j),
        r matches Some(s) ==> state_of(*j, s),
{
    if !matches!(j, Json::Object(_)) {
        return None;
    }
    let event_type = match text_member_of(j, "type") { Some(x) => x, None => return None };
    let moves = match text_member_of(j, "moves") { Some(x) => x, None => return None };
    let wtime = match number_member_of(j, "wtime") { Some(x) => x, None => return None };
    let btime = match number_member_of(j, "btime") { Some(x) => x, None => return None };
    let winc = match number_member_of(j, "winc") { Some(x) => x, None => return None };
    let binc = match number_member_of(j, "binc") { Some(x) => x, None => return None };
    let status = match text_member_of(j, "status") { Some(x) => x, None => return None };
    let wtakeback = match flag_member_of(j, "wtakeback") { Some(x) => x, None => return None };
    let btakeback = match flag_member_of(j, "btakeback") { Some(x) => x, None => return None };
    Some(LichessGameState { event_type, moves, wtime, btime, winc, binc, status, wtakeback, btakeback })
}

/// `j` is an object that holds a game: `id` and `initialFen` strings and a `state`.
pub open spec fn is_game(j: Json) -> bool {
    &&& j is Object
    &&& text_member(j, "id"@) is Some
    &&& text_member(j, "initialFen"@) is Some
    &&& member(j, "state"@) matches Some(st) && is_game_state(st)
}

/// The game holds the members of `j`.
pub open spec fn game_of(j: Json, g: LichessGameResponse) -> bool {
    &&& text_member(j, "id"@) == Some(g.id@)
    &&& text_member(j, "initialFen"@) == Some(g.initial_fen@)
    &&& member(j, "state"@) matches Some(st) && state_of(st, g.state)
}

/// Reads a game from `j`.
pub fn decode_game(j: &Json) -> (r: Option<LichessGameResponse>)
    ensures
        r is Some <==> is_game(*j),
        r matches Some(g) ==> game_of(*j, g),
{
    if !matches!(j, Json::Object(_)) {
        return None;
    }
    let id = match text_member_of(j, "id") { Some(x) => x, None => return None };
    let initial_fen = match text_member_of(j, "initialFen") { Some(x) => x, None => return None };
    let state = match get_member(j, "state") {
        Some(st) => match decode_state(st) { Some(x) => x, None => return None },
        None => return None,
    };
    Some(LichessGameResponse { id, initial_fen, state })
}

/// The message is a game state: its `type` is `gameState`.
pub open spec fn typed_game_state(j: Json) -> bool {
    text_member(j, "type"@) == Some("gameState"@)
}

/// What a message of the stream is: a game state where its type says so (an error where
/// it does not hold one), else a game where it holds one, else something else. Text that
/// is not JSON is an invalid response with `serde_json`'s message.
pub fn parse_game(text: &str) -> (r: Result<LichessResponse, ChessConnectorError>)
    ensures
        match json_of(text@) {
            Err(e) => r matches Err(ChessConnectorError::InvalidResponse(m)) && m@ == e,
            Ok(j) => if typed_game_state(j) {
                if is_game_state(j) {
                    r matches Ok(LichessResponse::GameState(s)) && state_of(j, s)
                } else {
                    r matches Err(ChessConnectorError::InvalidResponse(m)) && m@
                        == "invalid game state"@
                }
            } else if is_game(j) {
                r matches Ok(LichessResponse::Game(g)) && game_of(j, g)
            } else {
                r matches Ok(LichessResponse::Other)
            },
        },
{
    let j = match parse_json(text) {
        Ok(j) => j,
        Err(e) => return Err(ChessConnectorError::InvalidResponse(e)),
    };
    let is_state = match text_member_of(&j, "type") {
        Some(t) => same_text(t.as_str(), "gameState"),
        None => false,
    };
    if is_state {
        match decode_state(&j) {
            Some(s) => Ok(LichessResponse::GameState(s)),
            None => Err(ChessConnectorError::InvalidResponse("invalid game state".to_string())),
        }
    } else {
        match decode_game(&j) {
            Some(g) => Ok(LichessResponse::Game(g)),
            None => Ok(LichessResponse::Other),
        }
    }
}

/// The moves written as UCI texts, or `None` where one of the texts is not ASCII or not a
/// move.
pub open spec fn moves_of(texts: Seq<Seq<char>>) -> Option<Seq<ChessMove>>
    decreases texts.len(),
{
    if texts.len() == 0 {
        Some(Seq::empty())
    } else {
        match moves_of(texts.drop_last()) {
            None => None,
            Some(ms) => if is_ascii_chars(texts.last()) && move_from_uci(texts.last()) is Some {
                Some(ms.push(ChessMove::from_parts_spec(move_from_uci(texts.last()).unwrap())))
            } else {
                None
            },
        }
    }
}

/// The game after each of `ms` is made where it can be: a move that is illegal, or that
/// comes after the end of the game, is passed over (as `chess::Game::make_move` does).
pub open spec fn play(g: GameView, ms: Seq<ChessMove>) -> GameView
    decreases ms.len(),
{
    if ms.len() == 0 {
        g
    } else {
        after_move(play(g, ms.drop_last()), ms.last())
    }
}

/// The starting position named by lichess: `startpos` or a FEN.
pub open spec fn start_of(initial_fen: Seq<char>) -> Option<Seq<char>> {
    if initial_fen == "startpos"@ {
        board_from_fen(start_fen())
    } else if is_ascii_chars(initial_fen) {
        fen_board(initial_fen)
    } else {
        None
    }
}

/// The game that a game response of lichess describes.
pub open spec fn created(g: LichessGameResponse, r: Result<GameRecord, ChessConnectorError>) -> bool {
    match start_of(g.initial_fen@) {
        None => r matches Err(ChessConnectorError::InvalidFen(f)) && f@ == g.initial_fen@,
        Some(st) => match moves_of(words(g.state.moves@)) {
            None => r matches Err(ChessConnectorError::InvalidResponse(_)),
            Some(ms) => r matches Ok(game) && game@ == play(
                GameView { start: st, history: Seq::empty() },
                ms,
            ),
        },
    }
}

/// Reads the moves of a game from UCI texts.
fn parse_moves(texts: &Vec<String>) -> (r: Option<Vec<ChessMove>>)
    ensures
        match moves_of(texts@.map_values(|t: String| t@)) {
            None => r is None,
            Some(ms) => r matches Some(v) && v@ == ms && forall|i: int| 0 <= i < v@.len() ==> (#[trigger] v@[i]).wf(),
        },
{
    let ghost all = texts@.map_values(|t: String| t@);
    let mut out: Vec<ChessMove> = Vec::new();
    let mut i: usize = 0;
    while i < texts.len()
        invariant
            all == texts@.map_values(|t: String| t@),
            i <= texts@.len(),
            moves_of(all.take(i as int)) == Some(out@),
            forall|k: int| 0 <= k < out@.len() ==> (#[trigger] out@[k]).wf(),
        decreases texts@.len() - i,
    {
        assert(all.take(i as int + 1).drop_last() =~= all.take(i as int));
        assert(all.take(i as int + 1).last() == texts@[i as int]@);
        let t = texts[i].as_str();
        if !t.is_ascii() {
            proof {
                assert(!is_ascii_chars(t@));
                lemma_moves_of_stays_none(all, i as int + 1);
            }
            return None;
        }
        match parse_uci_parts(t) {
            Some(p) => {
                out.push(ChessMove::from_parts(p));
            },
            None => {
                proof {
                    lemma_moves_of_stays_none(all, i as int + 1);
                }
                return None;
            },
        }
        i += 1;
    }
    assert(all.take(i as int) =~= all);
    Some(out)
}

/// Once a text is not a move, no longer prefix has moves either.
proof fn lemma_moves_of_stays_none(all: Seq<Seq<char>>, k: int)
    requires
        0 <= k <= all.len(),
        moves_of(all.take(k)) is None,
    ensures
        moves_of(all) is None,
    decreases all.len() - k,
{
    if k < all.len() {
        assert(all.take(k + 1).drop_last() =~= all.take(k));
        lemma_moves_of_stays_none(all, k + 1);
    } else {
        assert(all.take(k) =~= all);
    }
}

/// Creates the game that a game response describes: from its starting position, with
/// each of its moves made where it can be. A starting FEN that the `chess` crate does not
/// read is `InvalidFen`, a move text that is not a move is `InvalidResponse`.
pub fn create_game(game_response: LichessGameResponse) -> (r: Result<GameRecord, ChessConnectorError>)
    ensures
        created(game_response, r),
{
    let fen = game_response.initial_fen.as_str();
    let mut game = if same_text(fen, "startpos") {
        GameRecord::new()
    } else if !fen.is_ascii() {
        return Err(ChessConnectorError::InvalidFen(game_response.initial_fen.clone()));
    } else {
        match GameRecord::from_fen(fen) {
            Some(g) => g,
            None => return Err(ChessConnectorError::InvalidFen(game_response.initial_fen.clone())),
        }
    };
    let texts = split_words(game_response.state.moves.as_str());
    let moves = match parse_moves(&texts) {
        Some(m) => m,
        None => return Err(ChessConnectorError::InvalidResponse(game_response.state.moves.clone())),
    };
    let ghost g0 = game@;
    let mut i: usize = 0;
    while i < moves.len()
        invariant
            i <= moves@.len(),
            forall|k: int| 0 <= k < moves@.len() ==> (#[trigger] moves@[k]).wf(),
            game@ == play(g0, moves@.take(i as int)),
        decreases moves@.len() - i,
    {
        assert(moves@.take(i as int + 1).drop_last() =~= moves@.take(i as int));
        let _ = game.make_move(moves[i]);
        i += 1;
    }
    assert(moves@.take(i as int) =~= moves@);
    Ok(game)
}

/// An open game of the list of lichess: its `gameId` and the `id` and `username` of its
/// `opponent`, if all are strings.
pub open spec fn ongoing_of(j: Json) -> Option<(Seq<char>, Seq<char>, Seq<char>)> {
    match (member(j, "gameId"@), member(j, "opponent"@)) {
        (Some(game_id), Some(opponent)) => match (
            text_member(opponent, "id"@),
            text_member(opponent, "username"@),
            as_text(game_id),
        ) {
            (Some(id), Some(username), Some(g)) => Some((g, id, username)),
            _ => None,
        },
        _ => None,
    }
}

/// The open games of a list, those that can be read, in order.
pub open spec fn ongoing_games(items: Seq<Json>) -> Seq<(Seq<char>, Seq<char>, Seq<char>)>
    decreases items.len(),
{
    if items.len() == 0 {
        Seq::empty()
    } else {
        ongoing_games(items.drop_last()) + match ongoing_of(items.last()) {
            Some(t) => seq![t],
            None => Seq::empty(),
        }
    }
}

/// The texts of an open game.
pub open spec fn ongoing_texts(g: OngoingGame) -> (Seq<char>, Seq<char>, Seq<char>) {
    (g.game_id@, g.opponent.id@, g.opponent.username@)
}

/// Reads an open game.
pub fn map_ongoing_game(j: &Json) -> (r: Option<OngoingGame>)
    ensures
        match ongoing_of(*j) {
            None => r is None,
            Some(t) => r matches Some(g) && ongoing_texts(g) == t,
        },
{
    let game_id = get_member(j, "gameId");
    let opponent = get_member(j, "opponent");
    match (game_id, opponent) {
        (Some(game_id), Some(opponent)) => {
            let id = match text_member_of(opponent, "id") { Some(x) => x, None => return None };
            let username = match text_member_of(opponent, "username") { Some(x) => x, None => return None };
            match text_of(game_id) {
                Some(g) => Some(OngoingGame { game_id: g, opponent: PlayerInfo { id, username } }),
                None => None,
            }
        },
        _ => None,
    }
}

/// `r` is what the answer `text` of lichess to the request for the open games gives: the
/// open games of its `nowPlaying` list that can be read, or an invalid response.
pub open spec fn open_games_read(text: Seq<char>, r: Result<Vec<OngoingGame>, ChessConnectorError>) -> bool {
    match json_of(text) {
        Err(e) => r matches Err(ChessConnectorError::InvalidResponse(m)) && m@ == e,
        Ok(j) => match member(j, "nowPlaying"@) {
            Some(Json::Array(items)) => r matches Ok(v) && v@.map_values(
                |g: OngoingGame| ongoing_texts(g),
            ) == ongoing_games(items@),
            _ => r matches Err(ChessConnectorError::InvalidResponse(m)) && m@
                == "missing or invalid 'nowPlaying' field"@,
        },
    }
}

/// The open games in the answer of lichess to the request for them: those of its
/// `nowPlaying` list that can be read. Text that is not JSON, or has no such list, is an
/// invalid response.
pub fn open_games_from_response(text: &str) -> (r: Result<Vec<OngoingGame>, ChessConnectorError>)
    ensures
        open_games_read(text@, r),
{
    let j = match parse_json(text) {
        Ok(j) => j,
        Err(e) => return Err(ChessConnectorError::InvalidResponse(e)),
    };
    let items = match get_member(&j, "nowPlaying") {
        Some(Json::Array(items)) => items,
        _ => return Err(ChessConnectorError::InvalidResponse(
            "missing or invalid 'nowPlaying' field".to_string(),
        )),
    };
    let mut out: Vec<OngoingGame> = Vec::new();
    let mut i: usize = 0;
    while i < items.len()
        invariant
            i <= items@.len(),
            out@.map_values(|g: OngoingGame| ongoing_texts(g)) == ongoing_games(items@.take(i as int)),
        decreases items@.len() - i,
    {
        assert(items@.take(i as int + 1).drop_last() =~= items@.take(i as int));
        let ghost before = out@;
        match map_ongoing_game(&items[i]) {
            Some(g) => {
                out.push(g);
                assert(out@.map_values(|g: OngoingGame| ongoing_texts(g)) =~= before.map_values(
                    |g: OngoingGame| ongoing_texts(g),
                ) + seq![ongoing_texts(g)]);
            },
            None => {
                assert(out@.map_values(|g: OngoingGame| ongoing_texts(g)) =~= before.map_values(
                    |g: OngoingGame| ongoing_texts(g),
                ) + Seq::empty());
            },
        }
        i += 1;
    }
    assert(items@.take(i as int) =~= items@);
    Ok(out)
}

/// `r` is what a message `text` of the stream of a game gives: the state it holds (the
/// state of a game where it is a game), with its moves split at spaces and a take-back
/// request where a flag says so; no event for another message; an invalid response where
/// it is no JSON or a game state without the members of one.
pub open spec fn message_event(text: Seq<char>, r: Result<Option<GameEvent>, ChessConnectorError>) -> bool {
    match json_of(text) {
        Err(e) => r matches Err(ChessConnectorError::InvalidResponse(m)) && m@ == e,
        Ok(j) => {
            let st = if typed_game_state(j) { Some(j) } else if is_game(j) { member(j, "state"@) } else { None };
            if typed_game_state(j) && !is_game_state(j) {
                r matches Err(ChessConnectorError::InvalidResponse(m)) && m@ == "invalid game state"@
            } else {
                match st {
                    None => r matches Ok(None),
                    Some(sj) => r matches Ok(Some(GameEvent::State(s))) && s.moves@.map_values(
                        |m: String| m@,
                    ) == words(text_member(sj, "moves"@).unwrap()) && s.white_request_take_back
                        == (flag_member(sj, "wtakeback"@) == Some(Some(true)))
                        && s.black_request_take_back == (flag_member(sj, "btakeback"@) == Some(
                        Some(true),
                    )),
                }
            }
        },
    }
}

/// The event of a message of the stream of a game: the state it holds (the state of a
/// game where it is a game), with its moves split at spaces and a take-back request
/// where a flag says so; no event for another message.
pub fn event_from_message(text: &str) -> (r: Result<Option<GameEvent>, ChessConnectorError>)
    ensures
        message_event(text@, r),
{
    let response = match parse_game(text) {
        Ok(r) => r,
        Err(e) => return Err(e),
    };
    let state = match response {
        LichessResponse::Game(game) => game.state,
        LichessResponse::GameState(state) => state,
        LichessResponse::Other => return Ok(None),
    };
    let moves = split_words(state.moves.as_str());
    let white = match state.wtakeback {
        Some(b) => b,
        None => false,
    };
    let black = match state.btakeback {
        Some(b) => b,
        None => false,
    };
    Ok(Some(GameEvent::State(GameState {
        white_request_take_back: white,
        black_request_take_back: black,
        moves,
    })))
}

/// `r` is what the first message `text` of the stream of a game gives: the game it
/// describes where it is a game; else an invalid response (with `serde_json`'s message
/// where it is no JSON).
pub open spec fn loaded_from(text: Seq<char>, r: Result<GameRecord, ChessConnectorError>) -> bool {
    match json_of(text) {
        Err(e) => r matches Err(ChessConnectorError::InvalidResponse(m)) && m@ == e,
        Ok(j) => if typed_game_state(j) {
            r matches Err(ChessConnectorError::InvalidResponse(m)) && m@ == (if is_game_state(j) {
                "first message is not a valid game response"@
            } else {
                "invalid game state"@
            })
        } else if is_game(j) {
            exists|g: LichessGameResponse| game_of(j, g) && #[trigger] created(g, r)
        } else {
            r matches Err(ChessConnectorError::InvalidResponse(m)) && m@
                == "first message is not a valid game response"@
        },
    }
}

/// The first message of a stream is a game.
pub open spec fn first_is_game(text: Seq<char>) -> bool {
    json_of(text) matches Ok(j) && !typed_game_state(j) && is_game(j)
}

/// The URL of the stream of game `id`.
pub open spec fn stream_url(id: Seq<char>) -> Seq<char> {
    "https://lichess.org/api/board/game/stream/"@ + id
}

/// The URL to which a move of game `id` is posted.
pub open spec fn move_url_of(id: Seq<char>, m: ChessMove) -> Seq<char> {
    "https://lichess.org/api/board/game/"@ + id + "/move/"@ + uci(m)
}

/// The URL to which a move of game `id` is posted.
pub fn move_url(id: &str, m: &ChessMove) -> (r: String)
    requires
        m.wf(),
    ensures
        r@ == move_url_of(id@, *m),
{
    let mut v: Vec<char> = Vec::new();
    push_text(&mut v, "https://lichess.org/api/board/game/");
    push_text(&mut v, id);
    push_text(&mut v, "/move/");
    let text = uci_text(m);
    push_text(&mut v, text.as_str());
    string_of(v.as_slice())
}

/// The URL of the list of the account's open games (at most nine).
pub open spec fn open_games_url_spec() -> Seq<char> {
    "https://lichess.org/api/account/playing?nb=9"@
}

/// The URL of the list of the account's open games (at most nine).
pub fn open_games_url() -> (r: String)
    ensures
        r@ == open_games_url_spec(),
{
    "https://lichess.org/api/account/playing?nb=9".to_string()
}

/// The URL of the stream of game `id`.
pub fn game_stream_url(id: &str) -> (r: String)
    ensures
        r@ == stream_url(id@),
{
    join_text("https://lichess.org/api/board/game/stream/", id)
}

/// A key of a lichess game: 8 to 12 ASCII letters and digits.
pub open spec fn valid_key(key: Seq<char>) -> bool {
    &&& 8 <= key.len() <= 12
    &&& forall|i: int| 0 <= i < key.len() ==> is_ascii_alphanumeric(#[trigger] key[i])
}

/// Whether `key` is the key of a lichess game.
pub fn is_lichess_key(key: &str) -> (r: bool)
    ensures
        r == valid_key(key@),
{
    let chars = crate::text::chars_of(key);
    if chars.len() < 8 || chars.len() > 12 {
        return false;
    }
    let mut i: usize = 0;
    while i < chars.len()
        invariant
            chars@ == key@,
            i <= chars@.len(),
            forall|k: int| 0 <= k < i ==> is_ascii_alphanumeric(#[trigger] chars@[k]),
        decreases chars@.len() - i,
    {
        let c = chars[i];
        if !(('0' <= c && c <= '9') || ('a' <= c && c <= 'z') || ('A' <= c && c <= 'Z')) {
            return false;
        }
        i += 1;
    }
    true
}

/// An ASCII letter or digit.
pub open spec fn is_ascii_alphanumeric(c: char) -> bool {
    ('0' <= c <= '9') || ('a' <= c <= 'z') || ('A' <= c <= 'Z')
}

/// A connector to lichess.org over `request`.
pub struct LichessConnector<R: Requester> {
    id: Option<String>,
    request: R,
    upstream_rx: Receiver<String>,
    upstream_tx: Sender<String>,
}

impl<R: Requester> LichessConnector<R> {
    /// A connector with no game loaded.
    pub fn new(request: R) -> (r: Self)
        ensures
            r.game_id() is None,
    {
        let (tx, rx) = channel();
        LichessConnector { id: None, request, upstream_rx: rx, upstream_tx: tx }
    }

    /// The id of the loaded game.
    pub closed spec fn game_id(&self) -> Option<Seq<char>> {
        match self.id {
            Some(s) => Some(s@),
            None => None,
        }
    }

    /// Whether `key` is the key of a lichess game.
    pub fn is_valid_key(&self, key: String) -> (r: bool)
        ensures
            r == valid_key(key@),
    {
        is_lichess_key(key.as_str())
    }

    /// The post that makes move `m` in the loaded game: the move's URL and its UCI text
    /// as the body; none without a game (or for a move off the board).
    pub fn move_request(&self, m: &ChessMove) -> (r: Option<(String, String)>)
        ensures
            match self.game_id() {
                Some(id) => if m.wf() {
                    r matches Some((url, body)) && url@ == move_url_of(id, *m) && body@ == uci(*m)
                } else {
                    r is None
                },
                None => r is None,
            },
    {
        match &self.id {
            Some(id) => {
                if m.source >= 64 || m.dest >= 64 {
                    return None;
                }
                let body = uci_text(m);
                let url = move_url(id.as_str(), m);
                Some((url, body))
            },
            None => None,
        }
    }

    /// Whether the requester is connected.
    pub fn is_connected(&self) -> bool {
        self.request.is_connected()
    }
}

impl<R: Requester> ChessConnector for LichessConnector<R> {
    /// The open games of the account: the reply to a request for `open_games_url`, read
    /// by `open_games_from_response`; a failed request is a request error with the
    /// requester's message.
    fn find_open_games(&self) -> (r: Result<Vec<OngoingGame>, ChessConnectorError>)
        ensures
            r matches Err(ChessConnectorError::RequestError(_)) || exists|text: Seq<char>|
                #[trigger] open_games_read(text, r),
    {
        let url = open_games_url();
        match self.request.get(url.as_str()) {
            Ok(response) => {
                let r = open_games_from_response(response.as_str());
                assert(open_games_read(response@, r));
                r
            },
            Err(e) => Err(ChessConnectorError::RequestError(e.message())),
        }
    }

    /// Opens the stream of game `id` (`stream_url`) and creates the game from its first
    /// message: an invalid response where that message is no game. The game id is taken
    /// once the first message is a game. The connector keeps a sender of the stream's
    /// channel itself, so the wait for the first message ends only with a message; a
    /// closed channel (`GameNotFound`) is still handled. What the requester streams is up
    /// to it.
    fn load_game(&mut self, id: &str) -> (r: Result<GameRecord, ChessConnectorError>)
        ensures
            if r matches Err(ChessConnectorError::RequestError(_)) || r matches Err(
                ChessConnectorError::GameNotFound,
            ) {
                final(self).game_id() == old(self).game_id()
            } else {
                exists|text: Seq<char>| #[trigger] loaded_from(text, r) && final(self).game_id() == (
                if first_is_game(text) {
                    Some(id@)
                } else {
                    old(self).game_id()
                })
            },
            r is Ok ==> final(self).game_id() == Some(id@),
    {
        let (tx, rx) = channel();
        self.upstream_rx = rx;
        self.upstream_tx = tx;
        let url = game_stream_url(id);
        let mut stream_tx = clone_sender(&self.upstream_tx);
        match self.request.stream(&mut stream_tx, url.as_str()) {
            Ok(()) => {},
            Err(e) => return Err(ChessConnectorError::RequestError(e.message())),
        }
        let first = match recv(&self.upstream_rx) {
            Some(t) => t,
            None => return Err(ChessConnectorError::GameNotFound),
        };
        let game = match parse_game(first.as_str()) {
            Ok(LichessResponse::Game(game)) => game,
            Ok(_) => {
                let r = Err(ChessConnectorError::InvalidResponse(
                    "first message is not a valid game response".to_string(),
                ));
                assert(loaded_from(first@, r));
                return r;
            },
            Err(e) => {
                let r = Err(e);
                assert(loaded_from(first@, r));
                return r;
            },
        };
        let ghost g0 = game;
        self.id = Some(id.to_string());
        let r = create_game(game);
        assert(loaded_from(first@, r));
        r
    }

    /// Posts the move to the loaded game (see `move_request`); false without a game or
    /// when the post fails.
    fn make_move(&self, chess_move: ChessMove) -> (r: bool)
        ensures
            r ==> self.game_id() is Some && chess_move.wf(),
    {
        match self.move_request(&chess_move) {
            Some((url, body)) => self.request.post(url.as_str(), body.as_str()).is_ok(),
            None => false,
        }
    }

    /// The event of the next waiting message of the stream, if there is one.
    fn next_event(&self) -> (r: Result<Option<GameEvent>, ChessConnectorError>)
        ensures
            r matches Ok(None) || exists|text: Seq<char>| #[trigger] message_event(text, r),
    {
        match try_recv(&self.upstream_rx) {
            Some(text) => {
                let r = event_from_message(text.as_str());
                assert(message_event(text@, r));
                r
            },
            None => Ok(None),
        }
    }
}

} // verus!
