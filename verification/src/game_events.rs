//! The events of the firmware's game thread: what the phone and the board ask of the game,
//! and what the game tells them.
use vstd::prelude::*;
use crate::bitboard_extensions::BitBoard;
use crate::chess_connector::{ChessConnectorError, OngoingGame};
use crate::game::ChessGameState;
use crate::text::same_text;

verus! {

/// What the game thread tells the rest of the firmware.
#[derive(Clone)]
pub enum GameStateEvent {
    OngoingGamesLoaded(Vec<OngoingGame>),
    UpdateGame(ChessGameState),
    GameLoaded(String),
}

/// What the rest of the firmware asks of the game thread.
#[derive(Debug, Clone)]
pub enum GameCommandEvent {
    LoadOpenGames,
    LoadNewGame { game_key: String },
    UpdatePhysical { bitboard: BitBoard },
    RequestTakeBack,
    AcceptTakeBack,
}

/// An event of the firmware.
#[derive(Clone)]
pub enum Event {
    GameState(GameStateEvent),
    GameCommand(GameCommandEvent),
}

/// The open games of all connectors, in the order of the connectors; a connector that
/// failed contributes none.
pub open spec fn open_games_of(results: Seq<Result<Vec<OngoingGame>, ChessConnectorError>>) -> Seq<OngoingGame>
    decreases results.len(),
{
    if results.len() == 0 {
        Seq::empty()
    } else {
        open_games_of(results.drop_last()) + match results.last() {
            Ok(games) => games@,
            Err(_) => Seq::empty(),
        }
    }
}

/// Collects the answers of the connectors to a request for open games.
pub fn collect_open_games(results: Vec<Result<Vec<OngoingGame>, ChessConnectorError>>) -> (r: Vec<OngoingGame>)
    ensures
        r@ == open_games_of(results@),
{
    let mut out: Vec<OngoingGame> = Vec::new();
    let mut rest = results;
    let ghost all = rest@;
    let mut i: usize = 0;
    let n = rest.len();
    assert(all.skip(0) =~= all);
    while rest.len() > 0
        invariant
            all.len() == n,
            all.len() == i + rest@.len(),
            rest@ == all.skip(i as int),
            out@ == open_games_of(all.take(i as int)),
        decreases rest@.len(),
    {
        let item = rest.remove(0);
        proof {
            assert(item == all[i as int]);
            assert(all.take(i as int + 1).drop_last() =~= all.take(i as int));
            assert(rest@ =~= all.skip(i as int + 1));
        }
        match item {
            Ok(games) => {
                let mut games = games;
                out.append(&mut games);
            },
            Err(_) => {},
        }
        i += 1;
    }
    assert(all.take(i as int) =~= all);
    out
}

/// Two snapshots of a game are the same (the position compared by its FEN).
pub open spec fn same_state_spec(a: ChessGameState, b: ChessGameState) -> bool {
    a.physical == b.physical && a.expected_physical == b.expected_physical && a.playing_state
        == b.playing_state && a.last_move == b.last_move && a.possible_moves == b.possible_moves
        && a.current_position@ == b.current_position@ && a.active_player == b.active_player
}

/// Whether two snapshots of a game are the same (the position compared by its FEN).
pub fn same_state(a: &ChessGameState, b: &ChessGameState) -> (r: bool)
    ensures
        r == same_state_spec(*a, *b),
{
    a.physical.0 == b.physical.0 && a.expected_physical.0 == b.expected_physical.0
        && a.playing_state == b.playing_state && a.last_move == b.last_move
        && a.possible_moves.0 == b.possible_moves.0 && same_text(
        a.current_position.fen(),
        b.current_position.fen(),
    ) && a.active_player == b.active_player
}

} // verus!
