use std::sync::mpsc::Sender;

use e_chess::chess_connector::{ChessConnectorError, OngoingGame, PlayerInfo};
use e_chess::event::{GameEvent, OnlineState};
use e_chess::event_manager::EventManager;
use e_chess::bitboard_extensions::BitBoard;
use e_chess::chess_connector::LocalChessConnector;
use e_chess::game::ChessGame;
use e_chess::game_loop::{after_tick, on_event, on_game_loaded, GameAction, GameLoop};
use e_chess::game_events::{collect_open_games, Event, GameCommandEvent, GameStateEvent};
use e_chess::game_handler::{game_keys, serializable, GameHandler, SerializableGameStateEvent};
use e_chess::requester::{DummyError, DummyRequester, ErrorMessage, Requester};

fn ongoing(id: &str) -> OngoingGame {
    OngoingGame {
        game_id: id.to_string(),
        opponent: PlayerInfo { id: "o".to_string(), username: "O".to_string() },
    }
}

#[test]
fn every_receiver_gets_every_event() {
    let manager: EventManager<u32> = EventManager::new();
    let first = manager.create_receiver();
    let second = manager.create_receiver();
    let sender = manager.create_sender();
    sender.send(7).unwrap();
    assert!(manager.forward_one());
    assert_eq!(first.try_recv().unwrap(), 7);
    assert_eq!(second.try_recv().unwrap(), 7);
    drop(second);
    sender.send(8).unwrap();
    assert!(!manager.forward_one());
    assert_eq!(first.try_recv().unwrap(), 8);
}

#[test]
fn dummy_requester_answers_empty() {
    let requester = DummyRequester;
    let (tx, _rx) = std::sync::mpsc::channel();
    let mut tx: Sender<String> = tx;
    assert!(requester.stream(&mut tx, "u").is_ok());
    assert_eq!(requester.get("u").unwrap(), "");
    assert_eq!(requester.post("u", "b").unwrap(), "");
    assert!(requester.is_connected());
    assert_eq!(DummyError.message(), "Dummy error");
}

#[test]
fn open_games_of_all_connectors_in_order() {
    let results = vec![
        Ok(vec![ongoing("a"), ongoing("b")]),
        Err(ChessConnectorError::GameNotFound),
        Ok(vec![ongoing("c")]),
    ];
    let games = collect_open_games(results);
    let ids: Vec<String> = games.iter().map(|g| g.game_id.clone()).collect();
    assert_eq!(ids, vec!["a", "b", "c"]);
}

#[test]
fn only_loaded_games_are_announced() {
    match serializable(GameStateEvent::GameLoaded("k".to_string())) {
        Some(SerializableGameStateEvent::GameLoaded { game_key }) => assert_eq!(game_key, "k"),
        other => panic!("unexpected {:?}", other),
    }
    match serializable(GameStateEvent::OngoingGamesLoaded(vec![ongoing("a")])) {
        Some(SerializableGameStateEvent::OngoingGamesLoaded { games }) => assert_eq!(games.len(), 1),
        other => panic!("unexpected {:?}", other),
    }
}

#[test]
fn game_handler_forwards_commands() {
    let (tx, rx) = std::sync::mpsc::channel();
    let handler = GameHandler::new(tx);
    assert!(handler.forward(GameCommandEvent::LoadOpenGames));
    assert!(matches!(rx.try_recv(), Ok(Event::GameCommand(GameCommandEvent::LoadOpenGames))));
    drop(rx);
    assert!(!handler.forward(GameCommandEvent::RequestTakeBack));
}

#[test]
fn game_keys_are_trimmed_lines() {
    let mut buffer = Vec::new();
    let keys = game_keys(b"  abc12345 \r\n\nxy", &mut buffer);
    assert_eq!(keys, vec!["abc12345".to_string()]);
    assert_eq!(buffer, b"xy".to_vec());
    let keys = game_keys(b"z\n\xff\xfe\n", &mut buffer);
    assert_eq!(keys, vec!["xyz".to_string(), "\u{fffd}\u{fffd}".to_string()]);
}

#[test]
fn online_states_compare_by_value() {
    let a = OnlineState { white_request_take_back: false, black_request_take_back: true, moves: vec!["e2e4".to_string()] };
    let b = OnlineState { white_request_take_back: false, black_request_take_back: true, moves: vec!["e2e4".to_string()] };
    assert!(GameEvent::NewOnlineState(a) == GameEvent::NewOnlineState(b));
    assert!(GameEvent::NoEvent == GameEvent::NoEvent);
}

#[test]
fn the_game_loop_decides_on_events_and_publishing() {
    let mut lp = GameLoop::new();
    let board = BitBoard(0xFFFF_0000_0000_FFFF);
    assert!(matches!(
        on_event(&mut lp, Event::GameCommand(GameCommandEvent::UpdatePhysical { bitboard: board })),
        GameAction::Nothing
    ));
    assert_eq!(lp.physical, board);
    assert!(matches!(on_event(&mut lp, Event::GameCommand(GameCommandEvent::LoadOpenGames)), GameAction::LoadOpenGames));
    match on_event(&mut lp, Event::GameCommand(GameCommandEvent::LoadNewGame { game_key: "abc".to_string() })) {
        GameAction::LoadGame(k) => assert_eq!(k, "abc"),
        _ => panic!("a game key must be loaded"),
    }
    assert!(matches!(
        on_event(&mut lp, Event::GameState(GameStateEvent::GameLoaded("k".to_string()))),
        GameAction::Publish(GameStateEvent::GameLoaded(ref k)) if k == "k"
    ));
    assert!(matches!(on_event(&mut lp, Event::GameCommand(GameCommandEvent::RequestTakeBack)), GameAction::Nothing));
    let mut chess = ChessGame::new(LocalChessConnector::new()).unwrap();
    chess.reset("").unwrap();
    chess.tick(lp.physical).unwrap();
    // The first state is published, the same one again is not.
    assert!(after_tick(&mut lp, chess.get_state()).is_some());
    assert!(after_tick(&mut lp, chess.get_state()).is_none());
    assert!(after_tick(&mut lp, None).is_none());
    on_game_loaded(&mut lp);
    assert!(lp.last_state.is_none());
    assert!(after_tick(&mut lp, chess.get_state()).is_some());
}

#[test]
fn game_keys_choose_their_connector() {
    assert!(e_chess::game_loop::connector_for("rnbqkbnr/pppppppp/8/8/8/8/PPPPPPPP/RNBQKBNR w KQkq - 0 1")
        == Some(e_chess::game_loop::ConnectorKind::Local));
    assert!(e_chess::game_loop::connector_for("abcd1234") == Some(e_chess::game_loop::ConnectorKind::Lichess));
    assert!(e_chess::game_loop::connector_for("no key").is_none());
    assert!(e_chess::game_loop::connector_for("8/8/8/8/8/8/8/8 w - - 0 1").is_none());
}
