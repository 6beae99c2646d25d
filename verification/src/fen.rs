//! The placement field of FEN text, read as the `chess` crate reads it: which piece
//! letter ends up on each square. The crate builds its board from this placement and
//! then looks up the king of the side to move; a placement without that king makes the
//! lookup read outside its tables, so no FEN goes to the crate unless both kings are
//! placed (a board the crate accepts always has one king of each side).
use vstd::prelude::*;
use crate::text::chars_of;
use crate::position::Color;

verus! {

/// Where the reader stands in the placement field: its rank and file, the piece letter
/// placed on each square so far (a space for none), and whether the field has ended.
pub struct Placing {
    pub rank: int,
    pub file: int,
    pub squares: Seq<char>,
    pub done: bool,
}

/// A letter of a piece in FEN (upper case for white).
pub open spec fn is_piece_letter(c: char) -> bool {
    c == 'p' || c == 'n' || c == 'b' || c == 'r' || c == 'q' || c == 'k' || c == 'P' || c == 'N'
        || c == 'B' || c == 'R' || c == 'Q' || c == 'K'
}

/// Before the first character: rank 8, file a, an empty board.
pub open spec fn placing_start() -> Placing {
    Placing { rank: 7, file: 0, squares: Seq::new(64, |i: int| ' '), done: false }
}

/// One character of the placement field: a space ends the field, `/` goes one rank down
/// to file a, a digit skips that many files, a piece letter is placed on the current
/// square and moves one file right; ranks and files wrap around. Any other character
/// makes the crate refuse the FEN, so it changes nothing here.
pub open spec fn place_char(p: Placing, c: char) -> Placing {
    if p.done {
        p
    } else if c == ' ' {
        Placing { done: true, ..p }
    } else if c == '/' {
        Placing { rank: (p.rank + 7) % 8, file: 0, ..p }
    } else if '1' <= c <= '8' {
        Placing { file: (p.file + (c as int - 48)) % 8, ..p }
    } else if is_piece_letter(c) {
        Placing { squares: p.squares.update(p.rank * 8 + p.file, c), file: (p.file + 1) % 8, ..p }
    } else {
        p
    }
}

/// The placement after the characters of `s`.
pub open spec fn placing(s: Seq<char>) -> Placing
    decreases s.len(),
{
    if s.len() == 0 {
        placing_start()
    } else {
        place_char(placing(s.drop_last()), s.last())
    }
}

/// A letter of a white piece.
pub open spec fn is_white_letter(c: char) -> bool {
    c == 'P' || c == 'N' || c == 'B' || c == 'R' || c == 'Q' || c == 'K'
}

/// A letter of a black piece.
pub open spec fn is_black_letter(c: char) -> bool {
    c == 'p' || c == 'n' || c == 'b' || c == 'r' || c == 'q' || c == 'k'
}

/// The piece index (pawn, knight, bishop, rook, queen, king) of a piece letter.
pub open spec fn letter_piece(c: char) -> Option<usize> {
    if c == 'p' || c == 'P' {
        Some(0)
    } else if c == 'n' || c == 'N' {
        Some(1)
    } else if c == 'b' || c == 'B' {
        Some(2)
    } else if c == 'r' || c == 'R' {
        Some(3)
    } else if c == 'q' || c == 'Q' {
        Some(4)
    } else if c == 'k' || c == 'K' {
        Some(5)
    } else {
        None
    }
}

/// The first character after the first space of the text: the side field of a FEN.
pub open spec fn side_field(s: Seq<char>) -> Option<char>
    decreases s.len(),
{
    if s.len() < 2 {
        None
    } else if s[0] == ' ' {
        Some(s[1])
    } else {
        side_field(s.drop_first())
    }
}

/// The side to move that FEN text names: white for `w`, black otherwise (the crate
/// writes `w` or `b`).
pub open spec fn fen_side(fen: Seq<char>) -> Color {
    if side_field(fen) == Some('w') {
        Color::White
    } else {
        Color::Black
    }
}

/// The placement of the FEN text puts a white king and a black king on the board.
pub open spec fn kings_on_board(fen: Seq<char>) -> bool {
    placing(fen).squares.contains('K') && placing(fen).squares.contains('k')
}

/// Whether the placement of the FEN text puts a white king and a black king on the
/// board.
pub fn kings_placed(fen: &str) -> (r: bool)
    ensures
        r == kings_on_board(fen@),
{
    let chars = chars_of(fen);
    let mut squares: Vec<char> = Vec::new();
    while squares.len() < 64
        invariant
            squares@.len() <= 64,
            forall|j: int| 0 <= j < squares@.len() ==> squares@[j] == ' ',
        decreases 64 - squares@.len(),
    {
        squares.push(' ');
    }
    assert(squares@ =~= placing_start().squares);
    let mut rank: u8 = 7;
    let mut file: u8 = 0;
    let mut done = false;
    let mut i: usize = 0;
    assert(chars@.take(0) =~= Seq::<char>::empty());
    while i < chars.len()
        invariant
            chars@ == fen@,
            i <= chars@.len(),
            rank < 8,
            file < 8,
            squares@.len() == 64,
            placing(chars@.take(i as int)) == (Placing {
                rank: rank as int,
                file: file as int,
                squares: squares@,
                done,
            }),
        decreases chars@.len() - i,
    {
        assert(chars@.take(i as int + 1).drop_last() =~= chars@.take(i as int));
        let c = chars[i];
        if !done {
            if c == ' ' {
                done = true;
            } else if c == '/' {
                rank = (rank + 7) % 8;
                file = 0;
            } else if '1' <= c && c <= '8' {
                let d: u32 = (c as u32) - 48;
                file = ((file as u32 + d) % 8) as u8;
            } else if c == 'p' || c == 'n' || c == 'b' || c == 'r' || c == 'q' || c == 'k' || c
                == 'P' || c == 'N' || c == 'B' || c == 'R' || c == 'Q' || c == 'K' {
                let at: usize = (rank as usize) * 8 + (file as usize);
                squares.set(at, c);
                file = (file + 1) % 8;
            }
        }
        i += 1;
    }
    assert(chars@.take(i as int) =~= fen@);
    let mut white = false;
    let mut black = false;
    let mut k: usize = 0;
    while k < 64
        invariant
            squares@.len() == 64,
            k <= 64,
            white == exists|j: int| 0 <= j < k && squares@[j] == 'K',
            black == exists|j: int| 0 <= j < k && squares@[j] == 'k',
        decreases 64 - k,
    {
        if squares[k] == 'K' {
            white = true;
        }
        if squares[k] == 'k' {
            black = true;
        }
        k += 1;
    }
    white && black
}

} // verus!
