//! The decisions of the firmware's game thread: what each event asks of it, and when the
//! state of the game is published. The thread itself (the waiting, the loading of games
//! through the connectors, the sending) is the firmware's.
use vstd::prelude::*;
use crate::bitboard_extensions::BitBoard;
use crate::game::ChessGameState;
use crate::game_events::{same_state, same_state_spec, Event, GameCommandEvent, GameStateEvent};
use crate::history::GameRecord;
use crate::lichess::{is_lichess_key, valid_key};
use crate::position::fen_board;

verus! {

/// What the game thread keeps between ticks: the last board reported and the last state
/// it published.
pub struct GameLoop {
    pub physical: BitBoard,
    pub last_state: Option<ChessGameState>,
}

/// What the game thread does for an event.
pub enum GameAction {
    /// Pass the event on to the phone.
    Publish(GameStateEvent),
    /// Ask every connector for its open games.
    LoadOpenGames,
    /// Load the game with this key.
    LoadGame(String),
    /// Nothing more.
    Nothing,
}

/// The connector that plays a game.
#[derive(Debug, Clone, Copy, PartialEq, Eq, Structural)]
pub enum ConnectorKind {
    Local,
    Lichess,
}

/// The connector of a game key, the connectors tried in turn: a FEN that the chess crate
/// reads (with both kings placed) is a local game, else a lichess key is a lichess game;
/// no connector takes any other key.
pub fn connector_for(key: &str) -> (r: Option<ConnectorKind>)
    ensures
        key.is_ascii() && fen_board(key@) is Some ==> r == Some(ConnectorKind::Local),
        !(key.is_ascii() && fen_board(key@) is Some) ==> if valid_key(key@) {
            r == Some(ConnectorKind::Lichess)
        } else {
            r is None
        },
{
    match GameRecord::from_fen(key) {
        Some(_) => Some(ConnectorKind::Local),
        None => if is_lichess_key(key) {
            Some(ConnectorKind::Lichess)
        } else {
            None
        },
    }
}

impl GameLoop {
    /// Before any event: an empty board and nothing published.
    pub fn new() -> (r: GameLoop)
        ensures
            r.physical.0 == 0,
            r.last_state is None,
    {
        GameLoop { physical: BitBoard(0), last_state: None }
    }
}

/// A copy of a snapshot.
pub fn copy_state(s: &ChessGameState) -> (r: ChessGameState)
    ensures
        same_state_spec(r, *s),
{
    ChessGameState {
        physical: s.physical,
        expected_physical: s.expected_physical,
        playing_state: s.playing_state,
        last_move: s.last_move,
        possible_moves: s.possible_moves,
        current_position: s.current_position.clone(),
        active_player: s.active_player,
    }
}

/// One event of the game thread: a state event goes on to the phone; a board report
/// becomes the board of the next tick; the phone's requests for open games or for a game
/// become actions; take-back requests are not acted on. Only a board report changes the
/// loop.
pub fn on_event(s: &mut GameLoop, e: Event) -> (r: GameAction)
    ensures
        match e {
            Event::GameState(st) => r == GameAction::Publish(st) && *final(s) == *old(s),
            Event::GameCommand(GameCommandEvent::UpdatePhysical { bitboard }) => r is Nothing
                && final(s).physical == bitboard && final(s).last_state == old(s).last_state,
            Event::GameCommand(GameCommandEvent::LoadOpenGames) => r is LoadOpenGames && *final(s)
                == *old(s),
            Event::GameCommand(GameCommandEvent::LoadNewGame { game_key }) => r == GameAction::LoadGame(
                game_key,
            ) && *final(s) == *old(s),
            Event::GameCommand(GameCommandEvent::RequestTakeBack) => r is Nothing && *final(s)
                == *old(s),
            Event::GameCommand(GameCommandEvent::AcceptTakeBack) => r is Nothing && *final(s)
                == *old(s),
        },
{
    match e {
        Event::GameState(st) => GameAction::Publish(st),
        Event::GameCommand(GameCommandEvent::UpdatePhysical { bitboard }) => {
            s.physical = bitboard;
            GameAction::Nothing
        },
        Event::GameCommand(GameCommandEvent::LoadOpenGames) => GameAction::LoadOpenGames,
        Event::GameCommand(GameCommandEvent::LoadNewGame { game_key }) => GameAction::LoadGame(
            game_key,
        ),
        Event::GameCommand(GameCommandEvent::RequestTakeBack) => GameAction::Nothing,
        Event::GameCommand(GameCommandEvent::AcceptTakeBack) => GameAction::Nothing,
    }
}

/// A new game was loaded: its first state is published whatever the last one was.
pub fn on_game_loaded(s: &mut GameLoop)
    ensures
        final(s).physical == old(s).physical,
        final(s).last_state is None,
{
    s.last_state = None;
}

/// After a tick that gave the state `now` (none without a game): the state is published
/// (returned, and kept as the last one) exactly where there is one and it is not the same
/// as the last one published.
pub fn after_tick(s: &mut GameLoop, now: Option<ChessGameState>) -> (r: Option<ChessGameState>)
    ensures
        final(s).physical == old(s).physical,
        match now {
            None => r is None && final(s).last_state == old(s).last_state,
            Some(st) => if old(s).last_state matches Some(l) && same_state_spec(l, st) {
                r is None && final(s).last_state == old(s).last_state
            } else {
                r == Some(st) && (final(s).last_state matches Some(l) && same_state_spec(l, st))
            },
        },
{
    let state = match now {
        None => {
            return None;
        },
        Some(st) => st,
    };
    let unchanged = match &s.last_state {
        Some(last) => same_state(last, &state),
        None => false,
    };
    if unchanged {
        return None;
    }
    s.last_state = Some(copy_state(&state));
    Some(state)
}

} // verus!
