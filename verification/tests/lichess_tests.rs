use std::sync::mpsc::Sender;

use e_chess::chess_connector::{ChessConnector, ChessConnectorError, GameEvent};
use e_chess::lichess::{
    create_game, event_from_message, map_ongoing_game, move_url, open_games_from_response,
    parse_game, uci_text, LichessConnector, LichessGameResponse, LichessGameState,
    LichessResponse,
};
use e_chess::json::Json;
use e_chess::position::{ChessMove, Piece};
use e_chess::requester::{DummyRequester, ErrorMessage, Requester};

const GAME: &str = r#"{"id":"abcd1234","initialFen":"startpos","state":{"type":"gameState","moves":"e2e4 e7e5","wtime":1,"btime":2,"winc":0,"binc":0,"status":"started","wtakeback":true}}"#;

fn state(moves: &str) -> LichessGameState {
    LichessGameState {
        event_type: "gameState".to_string(),
        moves: moves.to_string(),
        wtime: 0,
        btime: 0,
        winc: 0,
        binc: 0,
        status: "started".to_string(),
        wtakeback: None,
        btakeback: None,
    }
}

#[test]
fn uci_texts() {
    assert_eq!(uci_text(&ChessMove::new(12, 28, None)), "e2e4");
    assert_eq!(uci_text(&ChessMove::new(52, 60, Some(Piece::Queen))), "e7e8q");
    assert_eq!(
        move_url("abcd1234", &ChessMove::new(6, 21, None)),
        "https://lichess.org/api/board/game/abcd1234/move/g1f3"
    );
}

#[test]
fn messages_of_the_stream() {
    match parse_game(GAME).unwrap() {
        LichessResponse::Game(g) => {
            assert_eq!(g.id, "abcd1234");
            assert_eq!(g.initial_fen, "startpos");
            assert_eq!(g.state.moves, "e2e4 e7e5");
            assert_eq!(g.state.wtakeback, Some(true));
            assert_eq!(g.state.btakeback, None);
        }
        other => panic!("unexpected {:?}", other),
    }
    let st = r#"{"type":"gameState","moves":"e2e4","wtime":1,"btime":2,"winc":0,"binc":0,"status":"started","btakeback":null}"#;
    assert!(matches!(parse_game(st).unwrap(), LichessResponse::GameState(ref s) if s.moves == "e2e4"));
    assert!(matches!(parse_game(r#"{"type":"chatLine"}"#).unwrap(), LichessResponse::Other));
    assert!(matches!(parse_game(r#"{"type":"gameState","moves":"e2e4"}"#), Err(ChessConnectorError::InvalidResponse(_))));
    match parse_game("not json") {
        Err(ChessConnectorError::InvalidResponse(m)) => assert!(!m.is_empty()),
        _ => panic!("text that is not JSON must be an invalid response"),
    }
}

#[test]
fn games_are_created_from_responses() {
    let response = LichessGameResponse { id: "x".to_string(), initial_fen: "startpos".to_string(), state: state("e2e4 e7e5 e1e8") };
    let game = create_game(response).unwrap();
    // The illegal third move is passed over.
    assert_eq!(game.actions().len(), 2);
    assert_eq!(game.current_position().fen(), "rnbqkbnr/pppp1ppp/8/4p3/4P3/8/PPPP1PPP/RNBQKBNR w KQkq - 0 1");
    let bad_fen = LichessGameResponse { id: "x".to_string(), initial_fen: "no fen".to_string(), state: state("") };
    assert!(matches!(create_game(bad_fen), Err(ChessConnectorError::InvalidFen(ref f)) if f == "no fen"));
    // A placement without the king of the side to move is refused before the chess crate
    // sees it.
    let no_king = LichessGameResponse { id: "x".to_string(), initial_fen: "8/8/8/8/8/8/8/8 w - - 0 1".to_string(), state: state("") };
    assert!(matches!(create_game(no_king), Err(ChessConnectorError::InvalidFen(_))));
    // A king overwritten by a later letter on the same square does not count.
    let overwritten = LichessGameResponse { id: "x".to_string(), initial_fen: "K7r/8/8/8/8/8/8/7k w - - 0 1".to_string(), state: state("") };
    assert!(matches!(create_game(overwritten), Err(ChessConnectorError::InvalidFen(_))));
    let kings = LichessGameResponse { id: "x".to_string(), initial_fen: "8/8/8/8/8/8/8/K6k w - - 0 1".to_string(), state: state("") };
    assert_eq!(create_game(kings).unwrap().current_position().fen(), "8/8/8/8/8/8/8/K6k w - - 0 1");
    let bad_move = LichessGameResponse { id: "x".to_string(), initial_fen: "startpos".to_string(), state: state("e2e4 zz") };
    assert!(matches!(create_game(bad_move), Err(ChessConnectorError::InvalidResponse(_))));
}

#[test]
fn open_games_are_read_from_the_list() {
    let text = r#"{"nowPlaying":[{"gameId":"g1","opponent":{"id":"u1","username":"User1"}},{"gameId":"g2"},{"gameId":"g3","opponent":{"id":"u3","username":"User3"}}]}"#;
    let games = open_games_from_response(text).unwrap();
    assert_eq!(games.len(), 2);
    assert_eq!(games[0].game_id, "g1");
    assert_eq!(games[0].opponent.username, "User1");
    assert_eq!(games[1].opponent.id, "u3");
    match open_games_from_response("{}") {
        Err(ChessConnectorError::InvalidResponse(m)) => assert_eq!(m, "missing or invalid 'nowPlaying' field"),
        _ => panic!("a list is required"),
    }
    let j = Json::Object(vec![
        ("gameId".to_string(), Json::Str("g".to_string())),
        (
            "opponent".to_string(),
            Json::Object(vec![
                ("id".to_string(), Json::Number(Some(1))),
                ("username".to_string(), Json::Str("u".to_string())),
            ]),
        ),
    ]);
    assert!(map_ongoing_game(&j).is_none());
}

#[test]
fn events_from_messages() {
    match event_from_message(GAME).unwrap() {
        Some(GameEvent::State(s)) => {
            assert_eq!(s.moves, vec!["e2e4".to_string(), "e7e5".to_string()]);
            assert!(s.white_request_take_back);
            assert!(!s.black_request_take_back);
        }
        _ => panic!("a game gives its state"),
    }
    assert!(matches!(event_from_message(r#"{"type":"opponentGone"}"#), Ok(None)));
    assert!(event_from_message("{").is_err());
}

#[test]
fn keys_of_lichess_games() {
    let connector = LichessConnector::new(DummyRequester);
    assert!(connector.is_valid_key("abcd1234".to_string()));
    assert!(connector.is_valid_key("ABCDEFGH1234".to_string()));
    assert!(!connector.is_valid_key("abc".to_string()));
    assert!(!connector.is_valid_key("abcd-1234".to_string()));
    assert!(!connector.is_valid_key("abcdefghijklm".to_string()));
    assert!(!connector.is_valid_key("rnbqkbnr/pppppppp/8/8/8/8/PPPPPPPP/RNBQKBNR w KQkq - 0 1".to_string()));
    assert!(connector.is_connected());
}

#[test]
fn a_connector_without_a_game_makes_no_moves() {
    let connector = LichessConnector::new(DummyRequester);
    assert!(!connector.make_move(ChessMove::new(12, 28, None)));
    assert!(matches!(connector.next_event(), Ok(None)));
    // The dummy answers with an empty body, which is no JSON.
    assert!(matches!(connector.find_open_games(), Err(ChessConnectorError::InvalidResponse(_))));
}

struct OneGame;

#[derive(Debug)]
struct Never;

impl ErrorMessage for Never {
    fn message(&self) -> String {
        "never".to_string()
    }
}

impl Requester for OneGame {
    type RequestError = Never;

    fn stream(&self, tx: &mut Sender<String>, _url: &str) -> Result<(), Never> {
        tx.send(GAME.to_string()).unwrap();
        Ok(())
    }

    fn post(&self, _url: &str, _body: &str) -> Result<String, Never> {
        Ok(String::new())
    }

    fn get(&self, _url: &str) -> Result<String, Never> {
        Ok(String::new())
    }

    fn is_connected(&self) -> bool {
        true
    }
}

#[test]
fn a_loaded_game_takes_moves() {
    let mut connector = LichessConnector::new(OneGame);
    let game = connector.load_game("abcd1234").unwrap();
    assert_eq!(game.actions().len(), 2);
    assert!(connector.make_move(ChessMove::new(6, 21, None)));
}

#[test]
fn a_game_state_without_its_members_is_invalid() {
    match parse_game(r#"{"type":"gameState","moves":"e2e4"}"#) {
        Err(ChessConnectorError::InvalidResponse(m)) => assert_eq!(m, "invalid game state"),
        _ => panic!("a partial game state must be an invalid response"),
    }
}

struct StateFirst;

impl Requester for StateFirst {
    type RequestError = Never;

    fn stream(&self, tx: &mut Sender<String>, _url: &str) -> Result<(), Never> {
        let st = r#"{"type":"gameState","moves":"e2e4","wtime":1,"btime":2,"winc":0,"binc":0,"status":"started"}"#;
        tx.send(st.to_string()).unwrap();
        Ok(())
    }

    fn post(&self, _url: &str, _body: &str) -> Result<String, Never> {
        Ok(String::new())
    }

    fn get(&self, _url: &str) -> Result<String, Never> {
        Ok(r#"{"nowPlaying":[]}"#.to_string())
    }

    fn is_connected(&self) -> bool {
        false
    }
}

#[test]
fn a_stream_that_starts_with_a_state_loads_no_game() {
    let mut connector = LichessConnector::new(StateFirst);
    match connector.load_game("abcd1234") {
        Err(ChessConnectorError::InvalidResponse(m)) => {
            assert_eq!(m, "first message is not a valid game response")
        }
        _ => panic!("a stream that starts with a state must be refused"),
    }
    assert!(!connector.make_move(ChessMove::new(12, 28, None)));
    assert_eq!(connector.find_open_games().unwrap().len(), 0);
}

#[test]
fn the_open_games_url() {
    assert_eq!(e_chess::lichess::open_games_url(), "https://lichess.org/api/account/playing?nb=9");
    assert!(e_chess::lichess::is_lichess_key("abcd1234"));
    assert!(!e_chess::lichess::is_lichess_key("abc"));
}
