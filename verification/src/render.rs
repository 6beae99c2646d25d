//! The text picture of a game: whose turn it is, what is being moved, the FEN, and the
//! board from rank 8 down to rank 1 with a symbol for each piece; and, for pictures in
//! colour, how each square is highlighted.
use vstd::prelude::*;
use crate::game::{ChessGameState, PlayingState};
use crate::position::{board_piece_on, color_on_spec, piece_of_index, Color, Piece};
use crate::text::{chars_of, digit, digit_char, push_text, small_decimal, string_of};

verus! {

broadcast use vstd::string::group_string_axioms;

/// The symbol of a piece: outlined for white, filled otherwise, blank for no piece.
pub open spec fn piece_symbol(color: Option<Color>, piece: Option<Piece>) -> char {
    if color == Some(Color::White) {
        match piece {
            Some(Piece::Pawn) => '♙',
            Some(Piece::Knight) => '♘',
            Some(Piece::Bishop) => '♗',
            Some(Piece::Rook) => '♖',
            Some(Piece::Queen) => '♕',
            Some(Piece::King) => '♔',
            None => ' ',
        }
    } else {
        match piece {
            Some(Piece::Pawn) => '♟',
            Some(Piece::Knight) => '♞',
            Some(Piece::Bishop) => '♝',
            Some(Piece::Rook) => '♜',
            Some(Piece::Queen) => '♛',
            Some(Piece::King) => '♚',
            None => ' ',
        }
    }
}

/// The symbol of a piece of `color`, if any.
pub fn symbol_char(color: Option<Color>, piece: Option<Piece>) -> (r: char)
    ensures
        r == piece_symbol(color, piece),
{
    if color == Some(Color::White) {
        match piece {
            Some(Piece::Pawn) => '♙',
            Some(Piece::Knight) => '♘',
            Some(Piece::Bishop) => '♗',
            Some(Piece::Rook) => '♖',
            Some(Piece::Queen) => '♕',
            Some(Piece::King) => '♔',
            None => ' ',
        }
    } else {
        match piece {
            Some(Piece::Pawn) => '♟',
            Some(Piece::Knight) => '♞',
            Some(Piece::Bishop) => '♝',
            Some(Piece::Rook) => '♜',
            Some(Piece::Queen) => '♛',
            Some(Piece::King) => '♚',
            None => ' ',
        }
    }
}

/// The piece on `square` of the position with FEN `fen`.
pub open spec fn piece_at(fen: Seq<char>, square: u8) -> Option<Piece> {
    match board_piece_on(fen, square) {
        Some(i) => Some(piece_of_index(i)),
        None => None,
    }
}

/// The cell of a square: its symbol between two blanks.
pub open spec fn cell(fen: Seq<char>, square: int) -> Seq<char> {
    seq![' ', piece_symbol(color_on_spec(fen, square as u8), piece_at(fen, square as u8)), ' ']
}

/// The cells of the first `n` files of `rank` (ranks and files count from 0).
pub open spec fn cells(fen: Seq<char>, rank: int, n: int) -> Seq<char>
    decreases n,
{
    if n <= 0 {
        Seq::empty()
    } else {
        cells(fen, rank, n - 1) + cell(fen, rank * 8 + n - 1)
    }
}

/// The line of `rank`: its number, then its cells from file a to file h.
pub open spec fn rank_line(fen: Seq<char>, rank: int) -> Seq<char> {
    seq![digit(rank + 1), ' '] + cells(fen, rank, 8) + seq!['\n']
}

/// The lines of the `k` highest ranks, from rank 8 down.
pub open spec fn rank_lines(fen: Seq<char>, k: int) -> Seq<char>
    decreases k,
{
    if k <= 0 {
        Seq::empty()
    } else {
        rank_lines(fen, k - 1) + rank_line(fen, 8 - k)
    }
}

/// The name of a piece.
pub open spec fn piece_name(p: Piece) -> Seq<char> {
    match p {
        Piece::Pawn => "Pawn"@,
        Piece::Knight => "Knight"@,
        Piece::Bishop => "Bishop"@,
        Piece::Rook => "Rook"@,
        Piece::Queen => "Queen"@,
        Piece::King => "King"@,
    }
}

fn piece_name_text(p: Piece) -> (r: &'static str)
    ensures
        r@ == piece_name(p),
{
    match p {
        Piece::Pawn => "Pawn",
        Piece::Knight => "Knight",
        Piece::Bishop => "Bishop",
        Piece::Rook => "Rook",
        Piece::Queen => "Queen",
        Piece::King => "King",
    }
}

/// The line on what is being moved.
pub open spec fn moving_line(p: PlayingState) -> Seq<char> {
    match p {
        PlayingState::Idle => "No action in progress\n"@,
        PlayingState::MovingPiece { piece, from } => "Moving piece: "@ + piece_name(piece)
            + " at Square("@ + small_decimal(from as int) + ")\n"@,
    }
}

/// The line on whose turn it is.
pub open spec fn turn_line(c: Color) -> Seq<char> {
    match c {
        Color::White => "White to move\n"@,
        Color::Black => "Black to move\n"@,
    }
}

/// The picture of a game with `turn` to move, in playing state `playing`, in the position
/// with FEN `fen`.
pub open spec fn picture(turn: Color, playing: PlayingState, fen: Seq<char>) -> Seq<char> {
    header(turn, playing, fen) + "\n♙ = white\n♟ = black\n\n"@ + "\n   a  b  c  d  e  f  g  h \n"@
        + "  ------------------------\n"@ + rank_lines(fen, 8) + "  ------------------------\n"@
        + "   a  b  c  d  e  f  g  h \n"@
}

/// Draws a game. A piece that is being moved must stand on a square.
pub fn draw(s: &ChessGameState) -> (r: String)
    requires
        s.playing_state matches PlayingState::MovingPiece { from, .. } ==> from < 64,
    ensures
        r@ == picture(s.active_player, s.playing_state, s.current_position@),
{
    let head_text = draw_header(s);
    let mut v: Vec<char> = chars_of(head_text.as_str());
    let position = &s.current_position;
    push_text(&mut v, "\n♙ = white\n♟ = black\n\n");
    push_text(&mut v, "\n   a  b  c  d  e  f  g  h \n");
    push_text(&mut v, "  ------------------------\n");
    let ghost head = v@;
    let mut k: u8 = 0;
    while k < 8
        invariant
            k <= 8,
            v@ == head + rank_lines(position@, k as int),
        decreases 8 - k,
    {
        let rank: u8 = 7 - k;
        let ghost line_start = v@;
        v.push(digit_char(rank + 1));
        v.push(' ');
        let ghost cells_start = v@;
        let mut file: u8 = 0;
        while file < 8
            invariant
                file <= 8,
                rank < 8,
                v@ == cells_start + cells(position@, rank as int, file as int),
            decreases 8 - file,
        {
            let square: u8 = rank * 8 + file;
            let symbol = symbol_char(position.color_on(square), position.piece_on(square));
            v.push(' ');
            v.push(symbol);
            v.push(' ');
            assert(v@ =~= cells_start + cells(position@, rank as int, file as int + 1));
            file += 1;
        }
        v.push('\n');
        assert(v@ =~= line_start + rank_line(position@, rank as int));
        k += 1;
        assert(v@ =~= head + rank_lines(position@, k as int));
    }
    push_text(&mut v, "  ------------------------\n");
    push_text(&mut v, "   a  b  c  d  e  f  g  h \n");
    string_of(v.as_slice())
}

/// How a square is highlighted in a picture in colour.
#[derive(Debug, Clone, Copy, PartialEq, Eq, Structural)]
pub enum Highlight {
    /// No highlight: the colour of a light or a dark square.
    Plain { light: bool },
    /// A square of the last move.
    LastMove,
    /// The square the lifted piece came from.
    Moving,
    /// A square the lifted piece can move to.
    Target,
    /// A square that should hold a piece but is empty.
    Missing,
    /// A square that holds a piece but should be empty.
    Unexpected,
}

/// The highlight of `square` (0 to 63): a wrong occupation shows first, then the lifted
/// piece and where it can go, then the last move.
pub open spec fn highlight_of(s: ChessGameState, square: u64) -> Highlight {
    let physical = s.physical.holds(square);
    let expected = s.expected_physical.holds(square);
    if physical && !expected {
        Highlight::Unexpected
    } else if expected && !physical {
        Highlight::Missing
    } else if s.playing_state matches PlayingState::MovingPiece { from, .. } && from == square {
        Highlight::Moving
    } else if s.playing_state is MovingPiece && s.possible_moves.holds(square) {
        Highlight::Target
    } else if s.last_move matches Some(m) && (m.source == square || m.dest == square) {
        Highlight::LastMove
    } else {
        Highlight::Plain { light: ((square / 8) + (square % 8)) % 2 == 0 }
    }
}

/// The highlight of `square`.
pub fn highlight(s: &ChessGameState, square: u8) -> (r: Highlight)
    requires
        square < 64,
    ensures
        r == highlight_of(*s, square as u64),
{
    let physical = s.physical.contains(square);
    let expected = s.expected_physical.contains(square);
    if physical && !expected {
        return Highlight::Unexpected;
    }
    if expected && !physical {
        return Highlight::Missing;
    }
    if let PlayingState::MovingPiece { from, .. } = s.playing_state {
        if from == square {
            return Highlight::Moving;
        }
        if s.possible_moves.contains(square) {
            return Highlight::Target;
        }
    }
    if let Some(m) = s.last_move {
        if m.source == square || m.dest == square {
            return Highlight::LastMove;
        }
    }
    Highlight::Plain { light: ((square / 8) + (square % 8)) % 2 == 0 }
}

/// The lines above the board: whose turn it is, what is being moved, and the FEN.
pub open spec fn header(turn: Color, playing: PlayingState, fen: Seq<char>) -> Seq<char> {
    turn_line(turn) + moving_line(playing) + "\nFEN: "@ + fen + "\n\n"@
}

/// The lines above the board. A piece that is being moved must stand on a square.
pub fn draw_header(s: &ChessGameState) -> (r: String)
    requires
        s.playing_state matches PlayingState::MovingPiece { from, .. } ==> from < 64,
    ensures
        r@ == header(s.active_player, s.playing_state, s.current_position@),
{
    let mut v: Vec<char> = Vec::new();
    match s.active_player {
        Color::White => push_text(&mut v, "White to move\n"),
        Color::Black => push_text(&mut v, "Black to move\n"),
    }
    match s.playing_state {
        PlayingState::Idle => push_text(&mut v, "No action in progress\n"),
        PlayingState::MovingPiece { piece, from } => {
            push_text(&mut v, "Moving piece: ");
            push_text(&mut v, piece_name_text(piece));
            push_text(&mut v, " at Square(");
            let ghost before = v@;
            if from < 10 {
                v.push(digit_char(from));
            } else {
                v.push(digit_char(from / 10));
                v.push(digit_char(from % 10));
            }
            assert(v@ =~= before + small_decimal(from as int));
            push_text(&mut v, ")\n");
        },
    }
    push_text(&mut v, "\nFEN: ");
    push_text(&mut v, s.current_position.fen());
    push_text(&mut v, "\n\n");
    string_of(v.as_slice())
}

/// The symbol on `square` of the game's position.
pub fn square_symbol(s: &ChessGameState, square: u8) -> (r: char)
    requires
        square < 64,
    ensures
        r == piece_symbol(
            color_on_spec(s.current_position@, square),
            piece_at(s.current_position@, square),
        ),
{
    symbol_char(s.current_position.color_on(square), s.current_position.piece_on(square))
}

} // verus!
