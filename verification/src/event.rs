//! Events of a game as seen from outside: the server's state and the physical board.
use vstd::prelude::*;
use crate::bitboard_extensions::BitBoard;

verus! {

/// The server's state of a game: take-back requests and all moves so far (UCI text).
#[derive(PartialEq)]
pub struct OnlineState {
    pub white_request_take_back: bool,
    pub black_request_take_back: bool,
    pub moves: Vec<String>,
}

/// A change seen by the game (`NoEvent`: nothing changed).
#[derive(PartialEq)]
pub enum GameEvent {
    NewOnlineState(OnlineState),
    NewPhysicalState(BitBoard),
    NoEvent,
}

} // verus!
