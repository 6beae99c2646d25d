//! Chess positions. The rules of chess (move generation, legality, the effect of a
//! move) come from the `chess` crate; this module holds a position as the crate's board
//! together with the FEN text the crate writes for it, and states every query over that
//! text.
use vstd::prelude::*;
use crate::bitboard_extensions::bit_at;
use crate::fen::{fen_side, is_black_letter, is_white_letter, kings_on_board, letter_piece, placing};
use crate::history::{
    legal_history, moves_of_actions, only_moves, replay, result_of, side_after, GameResult,
};

verus! {

/// A side.
#[derive(Clone, Copy, PartialEq, Eq, Structural, Debug)]
pub enum Color {
    White,
    Black,
}

impl Color {
    /// The other side.
    pub open spec fn opponent(self) -> Color {
        match self {
            Color::White => Color::Black,
            Color::Black => Color::White,
        }
    }
}

/// A kind of piece, in the order of the `chess` crate's piece indices.
#[derive(Clone, Copy, PartialEq, Eq, Structural, Debug)]
pub enum Piece {
    Pawn,
    Knight,
    Bishop,
    Rook,
    Queen,
    King,
}

impl Piece {
    /// Index of the piece: pawn 0, knight 1, bishop 2, rook 3, queen 4, king 5.
    pub open spec fn spec_index(self) -> usize {
        match self {
            Piece::Pawn => 0,
            Piece::Knight => 1,
            Piece::Bishop => 2,
            Piece::Rook => 3,
            Piece::Queen => 4,
            Piece::King => 5,
        }
    }

    pub fn index(&self) -> (r: usize)
        ensures
            r == self.spec_index(),
            r < 6,
    {
        match self {
            Piece::Pawn => 0,
            Piece::Knight => 1,
            Piece::Bishop => 2,
            Piece::Rook => 3,
            Piece::Queen => 4,
            Piece::King => 5,
        }
    }

    /// The piece with the given index.
    pub fn from_index(i: usize) -> (r: Piece)
        requires
            i < 6,
        ensures
            r.spec_index() == i,
    {
        if i == 0 {
            Piece::Pawn
        } else if i == 1 {
            Piece::Knight
        } else if i == 2 {
            Piece::Bishop
        } else if i == 3 {
            Piece::Rook
        } else if i == 4 {
            Piece::Queen
        } else {
            Piece::King
        }
    }
}

/// The status of a position: play goes on, or the side to move has no legal move.
#[derive(Clone, Copy, PartialEq, Eq, Structural, Debug)]
pub enum BoardStatus {
    Ongoing,
    Stalemate,
    Checkmate,
}

/// A square index: `rank * 8 + file`, a1 = 0, h1 = 7, a8 = 56, h8 = 63.
pub open spec fn is_square(s: u8) -> bool {
    s < 64
}

/// A move from `source` to `dest`, promoting to `promotion` where a pawn reaches the
/// last rank.
#[derive(Clone, Copy, PartialEq, Eq, Structural, Debug)]
pub struct ChessMove {
    pub source: u8,
    pub dest: u8,
    pub promotion: Option<Piece>,
}

/// A move as the `chess` crate's parts: source and destination square and the index of
/// the promotion piece.
pub open spec fn parts_wf(p: (u8, u8, Option<usize>)) -> bool {
    &&& is_square(p.0)
    &&& is_square(p.1)
    &&& (p.2 matches Some(i) ==> i < 6)
}

impl ChessMove {
    pub open spec fn wf(self) -> bool {
        is_square(self.source) && is_square(self.dest)
    }

    pub open spec fn parts(self) -> (u8, u8, Option<usize>) {
        (
            self.source,
            self.dest,
            match self.promotion {
                Some(p) => Some(p.spec_index()),
                None => None,
            },
        )
    }

    pub open spec fn from_parts_spec(p: (u8, u8, Option<usize>)) -> ChessMove {
        ChessMove {
            source: p.0,
            dest: p.1,
            promotion: match p.2 {
                Some(i) => Some(
                    if i == 0 {
                        Piece::Pawn
                    } else if i == 1 {
                        Piece::Knight
                    } else if i == 2 {
                        Piece::Bishop
                    } else if i == 3 {
                        Piece::Rook
                    } else if i == 4 {
                        Piece::Queen
                    } else {
                        Piece::King
                    },
                ),
                None => None,
            },
        }
    }

    pub fn new(source: u8, dest: u8, promotion: Option<Piece>) -> (r: ChessMove)
        ensures
            r == (ChessMove { source, dest, promotion }),
    {
        ChessMove { source, dest, promotion }
    }

    pub fn to_parts(&self) -> (r: (u8, u8, Option<usize>))
        ensures
            r == self.parts(),
    {
        let promotion = match self.promotion {
            Some(p) => Some(p.index()),
            None => None,
        };
        (self.source, self.dest, promotion)
    }

    pub fn from_parts(p: (u8, u8, Option<usize>)) -> (r: ChessMove)
        requires
            parts_wf(p),
        ensures
            r == Self::from_parts_spec(p),
            r.wf(),
            r.parts() == p,
    {
        let promotion = match p.2 {
            Some(i) => Some(Piece::from_index(i)),
            None => None,
        };
        ChessMove { source: p.0, dest: p.1, promotion }
    }
}

#[verifier::external_type_specification]
#[verifier::external_body]
pub struct ExBoard(chess::Board);

/// A chess position: the `chess` crate's board and the FEN text that the crate writes
/// for it. Every query is stated over that text, which records all that the queries read
/// (the pieces on each square, the side to move, castling rights, the en-passant file).
pub struct Position {
    board: chess::Board,
    fen: String,
}

impl Clone for Position {
    /// A copy of the position.
    fn clone(&self) -> (r: Position)
        ensures
            r@ == self@,
    {
        self.duplicate()
    }
}

impl View for Position {
    type V = Seq<char>;

    closed spec fn view(&self) -> Seq<char> {
        self.fen@
    }
}

/// The position that FEN text gives: the one `chess::Board::from_str` reads from it
/// where both kings are placed; none where they are not (no board the crate accepts
/// lacks one, and the crate is not asked).
pub open spec fn fen_board(fen: Seq<char>) -> Option<Seq<char>> {
    if kings_on_board(fen) {
        board_from_fen(fen)
    } else {
        None
    }
}

/// FEN of the standard starting position.
pub open spec fn start_fen() -> Seq<char> {
    "rnbqkbnr/pppppppp/8/8/8/8/PPPPPPPP/RNBQKBNR w KQkq - 0 1"@
}

/// The FEN that `chess::Board` writes for the board it reads from `fen`, or `None` where
/// `Board::from_str` rejects `fen`.
pub uninterp spec fn board_from_fen(fen: Seq<char>) -> Option<Seq<char>>;

/// `Board::color_combined`: the squares occupied by `color`, bit `i` for square `i`.
pub uninterp spec fn board_color_combined(fen: Seq<char>, color: Color) -> u64;

/// `Board::piece_on`: the index of the piece on `square`, if any.
pub uninterp spec fn board_piece_on(fen: Seq<char>, square: u8) -> Option<usize>;

/// `Board::side_to_move`.
pub uninterp spec fn board_side_to_move(fen: Seq<char>) -> Color;

/// `Board::status`.
pub uninterp spec fn board_status(fen: Seq<char>) -> BoardStatus;

/// `MoveGen::new_legal`: the legal moves, as parts, in the order the crate yields them.
pub uninterp spec fn board_legal_moves(fen: Seq<char>) -> Seq<(u8, u8, Option<usize>)>;

/// `Board::make_move_new`: the FEN of the position after the move.
pub uninterp spec fn board_make_move(fen: Seq<char>, m: (u8, u8, Option<usize>)) -> Seq<char>;

/// The square named by a file letter and a rank digit, such as `e` and `2`.
pub open spec fn uci_square(file: char, rank: char) -> Option<u8> {
    if 'a' <= file <= 'h' && '1' <= rank <= '8' {
        Some(((rank as int - 49) * 8 + (file as int - 97)) as u8)
    } else {
        None
    }
}

/// The piece index of a promotion letter: queen, rook, knight or bishop.
pub open spec fn uci_promotion(c: char) -> Option<usize> {
    if c == 'q' {
        Some(4)
    } else if c == 'r' {
        Some(3)
    } else if c == 'n' {
        Some(1)
    } else if c == 'b' {
        Some(2)
    } else {
        None
    }
}

/// The move that `ChessMove::from_str` reads from UCI text such as `e2e4` or `e7e8q`: two
/// squares in the first four characters; a fifth character, where the text has exactly
/// five, must be a promotion letter; any further characters are not read.
pub open spec fn move_from_uci(text: Seq<char>) -> Option<(u8, u8, Option<usize>)> {
    if text.len() < 4 {
        None
    } else {
        match (uci_square(text[0], text[1]), uci_square(text[2], text[3])) {
            (Some(s), Some(d)) => if text.len() == 5 {
                match uci_promotion(text[4]) {
                    Some(p) => Some((s, d, Some(p))),
                    None => None,
                }
            } else {
                Some((s, d, None))
            },
            _ => None,
        }
    }
}

/// The side with a piece on `square` (`Board::color_on`: white if the white pieces hold
/// the square, else black if the black pieces do).
pub open spec fn color_on_spec(fen: Seq<char>, square: u8) -> Option<Color> {
    if bit_at(board_color_combined(fen, Color::White), square as u64) {
        Some(Color::White)
    } else if bit_at(board_color_combined(fen, Color::Black), square as u64) {
        Some(Color::Black)
    } else {
        None
    }
}

/// The piece with index `i`.
pub open spec fn piece_of_index(i: usize) -> Piece {
    ChessMove::from_parts_spec((0, 0, Some(i))).promotion.unwrap()
}

/// The move is legal in the position.
pub open spec fn spec_legal(fen: Seq<char>, m: ChessMove) -> bool {
    board_legal_moves(fen).contains(m.parts())
}

impl Position {
    /// Reads a position from FEN text with `chess::Board::from_str`, keeping the FEN the
    /// crate writes for it (`Display`). Claims: the result is the named outcome of that
    /// call. ASCII text is required: `chess` indexes the en-passant field by bytes and
    /// characters alike and can panic on other text. Both kings must be placed: the crate
    /// looks up the king of the side to move before it checks the board, and reads out of
    /// bounds where there is none.
    #[verifier::external_body]
    pub(crate) fn from_fen(fen: &str) -> (r: Option<Position>)
        requires
            fen.is_ascii(),
            kings_on_board(fen@),
        ensures
            match r {
                Some(p) => board_from_fen(fen@) == Some(p@),
                None => board_from_fen(fen@) is None,
            },
    {
        match <chess::Board as std::str::FromStr>::from_str(fen) {
            Ok(board) => Some(Position { board, fen: board.to_string() }),
            Err(_) => None,
        }
    }

    /// A copy of the position (`chess::Board` is `Copy`). Claims the copy has the same FEN.
    #[verifier::external_body]
    pub(crate) fn duplicate(&self) -> (r: Position)
        ensures
            r@ == self@,
    {
        Position { board: self.board, fen: self.fen.clone() }
    }

    /// The FEN text of the position.
    pub fn fen(&self) -> (r: &str)
        ensures
            r@ == self@,
    {
        self.fen.as_str()
    }

    /// `Board::color_combined`. Claims the result is the named value for this FEN, and
    /// that it holds the squares on which the FEN, as the crate writes it (`Display` of
    /// the board), places a letter of that side.
    #[verifier::external_body]
    pub(crate) fn color_combined(&self, color: Color) -> (r: u64)
        ensures
            r == board_color_combined(self@, color),
            forall|square: int|
                0 <= square < 64 ==> (bit_at(r, square as u64) <==> if color == Color::White {
                    is_white_letter(#[trigger] placing(self@).squares[square])
                } else {
                    is_black_letter(placing(self@).squares[square])
                }),
    {
        self.board.color_combined(match color {
            Color::White => chess::Color::White,
            Color::Black => chess::Color::Black,
        }).0
    }

    /// `Board::piece_on`, the piece given by its index. Claims the result is the named
    /// value for this FEN and square, an index below 6, and the piece of the letter that
    /// the FEN, as the crate writes it (`Display` of the board), places on the square.
    #[verifier::external_body]
    pub(crate) fn piece_index_on(&self, square: u8) -> (r: Option<usize>)
        requires
            is_square(square),
        ensures
            r == board_piece_on(self@, square),
            r == letter_piece(placing(self@).squares[square as int]),
            r matches Some(i) ==> i < 6,
    {
        self.board.piece_on(chess::ALL_SQUARES[square as usize]).map(|p| p.to_index())
    }

    /// The side with a piece on `square`.
    pub fn color_on(&self, square: u8) -> (r: Option<Color>)
        requires
            is_square(square),
        ensures
            r == color_on_spec(self@, square),
    {
        let white = crate::bitboard_extensions::BitBoard(self.color_combined(Color::White));
        if white.contains(square) {
            return Some(Color::White);
        }
        let black = crate::bitboard_extensions::BitBoard(self.color_combined(Color::Black));
        if black.contains(square) {
            Some(Color::Black)
        } else {
            None
        }
    }

    /// The piece on `square`, if any.
    pub fn piece_on(&self, square: u8) -> (r: Option<Piece>)
        requires
            is_square(square),
        ensures
            r == (match board_piece_on(self@, square) {
                Some(i) => Some(piece_of_index(i)),
                None => None,
            }),
    {
        match self.piece_index_on(square) {
            Some(i) => Some(Piece::from_index(i)),
            None => None,
        }
    }

    /// Whether the move is legal here.
    pub fn legal(&self, m: ChessMove) -> (r: bool)
        requires
            m.wf(),
        ensures
            r == spec_legal(self@, m),
    {
        self.legal_parts(m.to_parts())
    }

    /// `Board::status`. Claims the result is the named value, and what the crate's source
    /// shows: the status is `Ongoing` exactly when `MoveGen::new_legal` yields a move.
    #[verifier::external_body]
    pub(crate) fn status(&self) -> (r: BoardStatus)
        ensures
            r == board_status(self@),
            (r == BoardStatus::Ongoing) <==> board_legal_moves(self@).len() > 0,
    {
        match self.board.status() {
            chess::BoardStatus::Ongoing => BoardStatus::Ongoing,
            chess::BoardStatus::Stalemate => BoardStatus::Stalemate,
            chess::BoardStatus::Checkmate => BoardStatus::Checkmate,
        }
    }

    /// `MoveGen::new_legal`, each move as its parts. Claims the result is the named list,
    /// whose squares are all board squares and whose promotion indices are piece indices.
    #[verifier::external_body]
    pub(crate) fn legal_move_parts(&self) -> (r: Vec<(u8, u8, Option<usize>)>)
        ensures
            r@ == board_legal_moves(self@),
            forall|i: int| 0 <= i < r@.len() ==> parts_wf(#[trigger] r@[i]),
    {
        chess::MoveGen::new_legal(&self.board).map(
            |m| (m.get_source().to_int(), m.get_dest().to_int(), m.get_promotion().map(|p| p.to_index())),
        ).collect()
    }

    /// `Board::legal`. Claims what the crate's source shows: the move is legal exactly
    /// when `MoveGen::new_legal` yields it.
    #[verifier::external_body]
    pub(crate) fn legal_parts(&self, m: (u8, u8, Option<usize>)) -> (r: bool)
        requires
            parts_wf(m),
        ensures
            r == board_legal_moves(self@).contains(m),
    {
        self.board.legal(chess::ChessMove::new(
            chess::ALL_SQUARES[m.0 as usize],
            chess::ALL_SQUARES[m.1 as usize],
            m.2.map(|i| chess::ALL_PIECES[i]),
        ))
    }

}

#[verifier::external_type_specification]
#[verifier::external_body]
pub struct ExGame(chess::Game);

/// FEN of the board a `chess::Game` started from (its `start_pos`, as `Display` writes
/// it).
pub uninterp spec fn game_start(g: chess::Game) -> Seq<char>;

/// The actions of a `chess::Game` (`actions()`), oldest first: each move as its parts,
/// any other action (a draw offer or a resignation) as `None`.
pub uninterp spec fn game_actions(g: chess::Game) -> Seq<Option<(u8, u8, Option<usize>)>>;

/// `chess::Game::new`: a game from `Board::default()`, the standard starting position,
/// with no actions and white to move. The crate writes that board as the standard
/// starting FEN, and reads that FEN back as the same board (as the crate's own test of
/// its initial position checks).
#[verifier::external_body]
pub(crate) fn game_new() -> (r: chess::Game)
    ensures
        game_start(r) == start_fen(),
        board_side_to_move(game_start(r)) == Color::White,
        board_from_fen(start_fen()) == Some(game_start(r)),
        game_actions(r) == Seq::<Option<(u8, u8, Option<usize>)>>::empty(),
{
    chess::Game::new()
}

/// `chess::Game::new_with_board`: a game from the position, with no actions.
#[verifier::external_body]
pub(crate) fn game_from_position(p: &Position) -> (r: chess::Game)
    ensures
        game_start(r) == p@,
        game_actions(r) == Seq::<Option<(u8, u8, Option<usize>)>>::empty(),
{
    chess::Game::new_with_board(p.board)
}

/// `chess::Game::clone`: the same start and actions.
#[verifier::external_body]
pub(crate) fn game_clone(g: &chess::Game) -> (r: chess::Game)
    ensures
        game_start(r) == game_start(*g),
        game_actions(r) == game_actions(*g),
{
    g.clone()
}

/// `chess::Game::actions`, each action converted: a move to its parts, any other action
/// to `None`.
#[verifier::external_body]
pub(crate) fn game_action_parts(g: &chess::Game) -> (r: Vec<Option<(u8, u8, Option<usize>)>>)
    ensures
        r@ == game_actions(*g),
{
    g.actions().iter().map(|a| match a {
        chess::Action::MakeMove(m) => Some((m.get_source().to_int(), m.get_dest().to_int(), m.get_promotion().map(|p| p.to_index()))),
        chess::Action::OfferDraw(_) => None,
        chess::Action::AcceptDraw => None,
        chess::Action::DeclareDraw => None,
        chess::Action::Resign(_) => None,
    }).collect()
}

/// `chess::Game::current_position`, for a game of legal moves only: the start board with
/// each move made on it in turn (`make_move_new`), the last move last.
#[verifier::external_body]
pub(crate) fn game_position(g: &chess::Game) -> (r: Position)
    requires
        only_moves(game_actions(*g)),
        legal_history(game_start(*g), moves_of_actions(game_actions(*g))),
    ensures
        r@ == replay(game_start(*g), moves_of_actions(game_actions(*g))),
        game_actions(*g).len() > 0 ==> r@ == board_make_move(
            replay(game_start(*g), moves_of_actions(game_actions(*g)).drop_last()),
            game_actions(*g).last().unwrap(),
        ),
{
    let board = g.current_position();
    Position { board, fen: board.to_string() }
}

/// `chess::Game::side_to_move`, for a game of moves only: the start's side to move,
/// switched once per move. The start's side to move (`Board::side_to_move`) is the one
/// that the FEN the crate writes for it names (`Display` writes `w` for white, `b` for
/// black, after the placement and a space).
#[verifier::external_body]
pub(crate) fn game_side_to_move(g: &chess::Game) -> (r: Color)
    requires
        only_moves(game_actions(*g)),
    ensures
        r == side_after(board_side_to_move(game_start(*g)), game_actions(*g).len()),
        r == side_after(fen_side(game_start(*g)), game_actions(*g).len()),
{
    match g.side_to_move() {
        chess::Color::White => Color::White,
        chess::Color::Black => Color::Black,
    }
}

/// `chess::Game::result`, for a game of legal moves only: decided by the status of the
/// current position and the side to move (no draw or resignation can be the last
/// action).
#[verifier::external_body]
pub(crate) fn game_result(g: &chess::Game) -> (r: Option<GameResult>)
    requires
        only_moves(game_actions(*g)),
        legal_history(game_start(*g), moves_of_actions(game_actions(*g))),
    ensures
        r == result_of(
            board_status(replay(game_start(*g), moves_of_actions(game_actions(*g)))),
            side_after(board_side_to_move(game_start(*g)), game_actions(*g).len()),
        ),
{
    g.result().map(|r| match r {
        chess::GameResult::WhiteCheckmates => GameResult::WhiteCheckmates,
        chess::GameResult::WhiteResigns => GameResult::WhiteResigns,
        chess::GameResult::BlackCheckmates => GameResult::BlackCheckmates,
        chess::GameResult::BlackResigns => GameResult::BlackResigns,
        chess::GameResult::Stalemate => GameResult::Stalemate,
        chess::GameResult::DrawAccepted => GameResult::DrawAccepted,
        chess::GameResult::DrawDeclared => GameResult::DrawDeclared,
    })
}

/// `chess::Game::make_move`, for a game of legal moves only: the move is recorded as the
/// next action exactly when the game has no result and the move is legal in the current
/// position (`Board::legal`); otherwise nothing changes. A legal move is always recorded:
/// with moves only, a result is a checkmate or a stalemate, where `Board::status` finds
/// no legal move.
#[verifier::external_body]
pub(crate) fn game_make_move(g: &mut chess::Game, m: (u8, u8, Option<usize>)) -> (r: bool)
    requires
        parts_wf(m),
        only_moves(game_actions(*old(g))),
        legal_history(game_start(*old(g)), moves_of_actions(game_actions(*old(g)))),
    ensures
        r == (result_of(
            board_status(replay(game_start(*old(g)), moves_of_actions(game_actions(*old(g))))),
            side_after(board_side_to_move(game_start(*old(g))), game_actions(*old(g)).len()),
        ) is None && board_legal_moves(
            replay(game_start(*old(g)), moves_of_actions(game_actions(*old(g)))),
        ).contains(m)),
        board_legal_moves(replay(game_start(*old(g)), moves_of_actions(game_actions(*old(g)))))
            .contains(m) ==> r,
        game_start(*final(g)) == game_start(*old(g)),
        r ==> game_actions(*final(g)) == game_actions(*old(g)).push(Some(m)),
        !r ==> game_actions(*final(g)) == game_actions(*old(g)),
{
    g.make_move(chess::ChessMove::new(
        chess::ALL_SQUARES[m.0 as usize],
        chess::ALL_SQUARES[m.1 as usize],
        m.2.map(|i| chess::ALL_PIECES[i]),
    ))
}

/// `ChessMove::from_str` on UCI text, the move as its parts. ASCII text is required: the
/// crate slices the text by bytes and indexes it by characters and can panic on other
/// text. Claims the result is the move `move_from_uci` reads, as the crate's source reads
/// it (`Square::from_str` on the first two pairs of characters, a promotion letter where
/// the text has five).
#[verifier::external_body]
pub(crate) fn parse_uci_parts(text: &str) -> (r: Option<(u8, u8, Option<usize>)>)
    requires
        text.is_ascii(),
    ensures
        r == move_from_uci(text@),
        r matches Some(p) ==> parts_wf(p),
{
    <chess::ChessMove as std::str::FromStr>::from_str(text).ok().map(
        |m| (m.get_source().to_int(), m.get_dest().to_int(), m.get_promotion().map(|p| p.to_index())),
    )
}

} // verus!
