//! The LEDs under the board: one per square, wired as a snake from the top left. This
//! module holds the wiring, what each LED shows for a game, and when the LEDs are redrawn;
//! the colours (scaled by a brightness) and the driver are the firmware's.
use vstd::prelude::*;
use crate::game::{ChessGameState, PlayingState};

verus! {

/// The 28 border squares in clockwise order from a1 (square = rank * 8 + file).
pub const BORDER_SQUARES: [u8; 28] = [
    0, 1, 2, 3, 4, 5, 6, 7, 15, 23, 31, 39, 47, 55, 63, 62, 61, 60, 59, 58, 57, 56, 48, 40, 32,
    24, 16, 8,
];

/// The LED of `square`: the strip starts at rank 8 and runs along every rank, turning at
/// its end, so that ranks 8, 6, 4 and 2 run from file h to file a.
pub open spec fn pixel_of(square: int) -> int {
    let row = 7 - square / 8;
    let file = square % 8;
    if row % 2 == 0 {
        row * 8 + (7 - file)
    } else {
        row * 8 + file
    }
}

/// The square of LED `pixel`.
pub open spec fn square_of(pixel: int) -> int {
    let row = pixel / 8;
    let file = if row % 2 == 0 { 7 - pixel % 8 } else { pixel % 8 };
    (7 - row) * 8 + file
}

/// The wiring is one to one: each square has its own LED.
pub proof fn law_pixels_one_to_one(square: int, pixel: int)
    requires
        0 <= square < 64,
        0 <= pixel < 64,
    ensures
        0 <= pixel_of(square) < 64,
        0 <= square_of(pixel) < 64,
        square_of(pixel_of(square)) == square,
        pixel_of(square_of(pixel)) == pixel,
{
}

/// The LED of `square`.
pub fn get_pixel(square: u8) -> (r: usize)
    requires
        square < 64,
    ensures
        r == pixel_of(square as int),
        r < 64,
{
    let row: usize = 7 - (square / 8) as usize;
    let file: usize = (square % 8) as usize;
    if row % 2 == 0 {
        row * 8 + (7 - file)
    } else {
        row * 8 + file
    }
}

/// What an LED shows.
#[derive(Debug, Clone, Copy, PartialEq, Eq, Structural)]
pub enum LedRole {
    Off,
    /// The square the last move came from (dim cyan).
    LastMoveFrom,
    /// The square the last move went to (cyan).
    LastMoveTo,
    /// The square the lifted piece came from (green).
    Moving,
    /// A square that should hold a piece but is empty (yellow).
    Missing,
    /// A square that holds a piece but should be empty (red).
    Added,
    /// A square the lifted piece can move to (green).
    Possible,
}

/// What the LED of `square` shows for a game: where the lifted piece can go, then a wrong
/// occupation, then the lifted piece's square, then the last move.
pub open spec fn role_of(s: ChessGameState, square: u64) -> LedRole {
    if s.possible_moves.holds(square) {
        LedRole::Possible
    } else if s.physical.holds(square) && !s.expected_physical.holds(square) {
        LedRole::Added
    } else if s.expected_physical.holds(square) && !s.physical.holds(square) {
        LedRole::Missing
    } else if s.playing_state matches PlayingState::MovingPiece { from, .. } && from == square {
        LedRole::Moving
    } else if s.last_move matches Some(m) && m.dest == square {
        LedRole::LastMoveTo
    } else if s.last_move matches Some(m) && m.source == square {
        LedRole::LastMoveFrom
    } else {
        LedRole::Off
    }
}

fn role(s: &ChessGameState, square: u8) -> (r: LedRole)
    requires
        square < 64,
    ensures
        r == role_of(*s, square as u64),
{
    if s.possible_moves.contains(square) {
        return LedRole::Possible;
    }
    let physical = s.physical.contains(square);
    let expected = s.expected_physical.contains(square);
    if physical && !expected {
        return LedRole::Added;
    }
    if expected && !physical {
        return LedRole::Missing;
    }
    if let PlayingState::MovingPiece { from, .. } = s.playing_state {
        if from == square {
            return LedRole::Moving;
        }
    }
    if let Some(m) = s.last_move {
        if m.dest == square {
            return LedRole::LastMoveTo;
        }
        if m.source == square {
            return LedRole::LastMoveFrom;
        }
    }
    LedRole::Off
}

/// What every LED shows, in the order of the strip.
pub fn frame(s: &ChessGameState) -> (r: Vec<LedRole>)
    ensures
        r@.len() == 64,
        forall|square: int| 0 <= square < 64 ==> r@[pixel_of(square)] == role_of(*s, square as u64),
{
    let mut v: Vec<LedRole> = Vec::new();
    let mut p: usize = 0;
    while p < 64
        invariant
            p <= 64,
            v@.len() == p,
            forall|q: int| 0 <= q < p ==> v@[q] == role_of(*s, square_of(q) as u64),
        decreases 64 - p,
    {
        let row: usize = p / 8;
        let file: usize = if row % 2 == 0 { 7 - p % 8 } else { p % 8 };
        let square: u8 = ((7 - row) * 8 + file) as u8;
        v.push(role(s, square));
        p += 1;
    }
    assert forall|square: int| 0 <= square < 64 implies v@[pixel_of(square)] == role_of(*s, square as u64) by {
        law_pixels_one_to_one(square, 0);
    }
    v
}

/// The squares of a trail of eight running round the border, its head at border position
/// `head` first, then the seven positions behind it.
pub fn spinner_trail(head: usize) -> (r: Vec<u8>)
    requires
        head < 28,
    ensures
        r@.len() == 8,
        forall|i: int| 0 <= i < 8 ==> r@[i] == BORDER_SQUARES@[(head + 28 - i) % 28],
{
    let mut v: Vec<u8> = Vec::new();
    let mut i: usize = 0;
    while i < 8
        invariant
            i <= 8,
            head < 28,
            v@.len() == i,
            forall|k: int| 0 <= k < i ==> v@[k] == BORDER_SQUARES@[(head + 28 - k) % 28],
        decreases 8 - i,
    {
        v.push(BORDER_SQUARES[(head + 28 - i) % 28]);
        i += 1;
    }
    v
}

/// When the LEDs are redrawn: only when the physical or the expected board changed since
/// the last drawing.
pub struct DisplayState {
    previous_state: Option<(u64, u64)>,
    tick_counter: u32,
}

impl DisplayState {
    pub fn new() -> (r: DisplayState)
        ensures
            r.previous() is None,
            r.ticks() == 0,
    {
        DisplayState { previous_state: None, tick_counter: 0 }
    }

    /// The boards of the last drawing.
    pub closed spec fn previous(&self) -> Option<(u64, u64)> {
        self.previous_state
    }

    /// The ticks so far (wrapping).
    pub closed spec fn ticks(&self) -> u32 {
        self.tick_counter
    }

    /// One tick: without a game nothing happens; otherwise the tick is counted and the
    /// frame is given where the boards changed since the last drawing.
    pub fn tick(&mut self, game: Option<&ChessGameState>) -> (r: Option<Vec<LedRole>>)
        ensures
            match game {
                None => r is None && final(self).previous() == old(self).previous()
                    && final(self).ticks() == old(self).ticks(),
                Some(s) => {
                    &&& final(self).ticks() == (if old(self).ticks() == u32::MAX { 0 } else { (old(self).ticks() + 1) as u32 })
                    &&& final(self).previous() == Some((s.physical.0, s.expected_physical.0))
                    &&& if old(self).previous() == Some((s.physical.0, s.expected_physical.0)) {
                        r is None
                    } else {
                        r matches Some(v) && v@.len() == 64 && forall|square: int|
                            0 <= square < 64 ==> v@[pixel_of(square)] == role_of(*s, square as u64)
                    }
                },
            },
    {
        let s = match game {
            Some(s) => s,
            None => return None,
        };
        self.tick_counter = self.tick_counter.wrapping_add(1);
        let current = (s.physical.0, s.expected_physical.0);
        let unchanged = match self.previous_state {
            Some((p, e)) => p == current.0 && e == current.1,
            None => false,
        };
        if unchanged {
            return None;
        }
        let f = frame(s);
        self.previous_state = Some(current);
        Some(f)
    }
}

} // verus!

verus! {

/// Each warning colour names its cause: a square is shown where the lifted piece can go
/// exactly when it can go there; otherwise it is shown red (added) exactly when it holds
/// a piece the board does not expect there, and yellow (missing) exactly when it lacks a
/// piece the board expects there. So a misplaced piece is never left dark.
pub proof fn law_warnings_name_their_cause(s: ChessGameState, square: u64)
    requires
        square < 64,
    ensures
        (role_of(s, square) == LedRole::Possible) <==> s.possible_moves.holds(square),
        (role_of(s, square) == LedRole::Added) <==> (!s.possible_moves.holds(square)
            && s.physical.holds(square) && !s.expected_physical.holds(square)),
        (role_of(s, square) == LedRole::Missing) <==> (!s.possible_moves.holds(square)
            && s.expected_physical.holds(square) && !s.physical.holds(square)),
        s.physical.holds(square) != s.expected_physical.holds(square) ==> role_of(s, square)
            != LedRole::Off,
{
}

} // verus!
