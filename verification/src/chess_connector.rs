//! The connection of a game to a server (or to nothing, for a local game).
use vstd::prelude::*;
use crate::history::GameRecord;
use crate::position::{board_from_fen, start_fen, ChessMove, Color};

verus! {

broadcast use vstd::string::group_string_axioms;

/// Errors of a connector.
#[derive(Debug)]
pub enum ChessConnectorError {
    GameNotFound,
    RequestError(String),
    InvalidResponse(String),
    InvalidFen(String),
}

/// The server's view of a game: take-back requests and all moves so far (UCI text).
pub struct GameState {
    pub white_request_take_back: bool,
    pub black_request_take_back: bool,
    pub moves: Vec<String>,
}

/// An event of a connector.
pub enum GameEvent {
    State(GameState),
    Unknown,
}

/// A player.
#[derive(Debug, Clone)]
pub struct PlayerInfo {
    pub id: String,
    pub username: String,
}

/// A game in progress that can be loaded.
#[derive(Debug, Clone)]
pub struct OngoingGame {
    pub game_id: String,
    pub opponent: PlayerInfo,
}

/// A connection of a game to its server. Implemented by users of the library; nothing is
/// promised of an implementation.
pub trait ChessConnector {
    /// Find open games.
    fn find_open_games(&self) -> Result<Vec<OngoingGame>, ChessConnectorError>;

    /// Loads a game by id and returns it.
    fn load_game(&mut self, id: &str) -> Result<GameRecord, ChessConnectorError>;

    /// Make a move on the board; true if the server took it. A move of a player that is
    /// not a local player is ignored and gives true.
    fn make_move(&self, chess_move: ChessMove) -> bool;

    /// The next event from upstream, if any. Called as often as possible.
    fn next_event(&self) -> Result<Option<GameEvent>, ChessConnectorError>;
}

/// A connector for a local game, keyed by a FEN.
pub struct LocalChessConnector;

/// The identifier of the one open local game: the starting FEN.
pub open spec fn local_game_id() -> Seq<char> {
    start_fen()
}

impl LocalChessConnector {
    /// Creates the connector, boxed as a `ChessConnector`.
    pub fn new() -> Box<dyn ChessConnector> {
        Box::new(LocalChessConnector)
    }
}

impl ChessConnector for LocalChessConnector {
    /// The open local games: the starting position against the local opponent.
    fn find_open_games(&self) -> (r: Result<Vec<OngoingGame>, ChessConnectorError>)
        ensures
            r matches Ok(v) && v@.len() == 1 && v@[0].game_id@ == local_game_id()
                && v@[0].opponent.id@ == "local_opponent"@ && v@[0].opponent.username@
                == "Local Opponent"@,
    {
        let game_id = "rnbqkbnr/pppppppp/8/8/8/8/PPPPPPPP/RNBQKBNR w KQkq - 0 1".to_string();
        let id = "local_opponent".to_string();
        let username = "Local Opponent".to_string();
        let mut v = Vec::new();
        v.push(OngoingGame { game_id, opponent: PlayerInfo { id, username } });
        Ok(v)
    }

    /// Loads a game by starting a new one from the standard starting position, whatever
    /// the id.
    fn load_game(&mut self, id: &str) -> (r: Result<GameRecord, ChessConnectorError>)
        ensures
            r matches Ok(g) && g.start_fen() == start_fen() && board_from_fen(start_fen())
                == Some(g.start_fen()) && g.history().len() == 0 && g.spec_side_to_move()
                == Color::White,
    {
        Ok(GameRecord::new())
    }

    /// Every move is taken.
    fn make_move(&self, _chess_move: ChessMove) -> (r: bool)
        ensures
            r,
    {
        true
    }

    /// There are never upstream events.
    fn next_event(&self) -> (r: Result<Option<GameEvent>, ChessConnectorError>)
        ensures
            r matches Ok(None),
    {
        Ok(None)
    }
}

} // verus!
