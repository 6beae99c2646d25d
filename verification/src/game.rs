//! The game logic of the physical board: a chess game, the squares the board expects to
//! be occupied, and a piece that is being moved.
use vstd::prelude::*;
use vstd::std_specs::bits::u64_trailing_zeros;
use crate::bitboard_extensions::{
    bit_at, lemma_bit_ops, lemma_no_square, lemma_one_square_apart, lemma_single_square_index,
    lemma_square_word, single_square, BitBoard, BitBoardExtensions,
};
use crate::chess_connector::{ChessConnector, ChessConnectorError, GameEvent};
use crate::history::{after_move, position_of, result_of_game, side_of, GameRecord, GameView};
use crate::render::{draw, picture};
use vstd::utf8::is_ascii_chars;
use crate::position::{move_from_uci, 
    board_color_combined, board_legal_moves, board_piece_on, color_on_spec, is_square,
    parse_uci_parts, piece_of_index, spec_legal, ChessMove, Color, Piece, Position,
};

verus! {

/// Errors of a game.
#[derive(Debug)]
pub enum ChessGameError {
    /// A move from the server could not be read (its UCI text is kept).
    LoadingFen(String),
    /// The connector could not load the game.
    LoadingGame(ChessConnectorError),
    /// No connector takes the game key.
    InvalidGameKey,
}

/// Whether a piece is being moved physically.
#[derive(Clone, Copy, PartialEq, Eq, Structural, Debug)]
pub enum PlayingState {
    Idle,
    MovingPiece { piece: Piece, from: u8 },
}

/// A snapshot of a game for displays.
#[derive(Clone)]
pub struct ChessGameState {
    pub physical: BitBoard,
    pub expected_physical: BitBoard,
    pub playing_state: PlayingState,
    pub last_move: Option<ChessMove>,
    pub possible_moves: BitBoard,
    pub current_position: Position,
    pub active_player: Color,
}

/// What a `ChessGame` holds, but for its connection.
#[verifier::ext_equal]
pub struct ChessGameView {
    pub game: Option<GameView>,
    pub expected_white: u64,
    pub expected_black: u64,
    pub physical: u64,
    pub playing_state: PlayingState,
    pub server_moves: Seq<ChessMove>,
    pub id: Seq<char>,
}

/// The game after the server's move `m`: the move is made where it can be, it joins the
/// server's moves, and the expected squares are those of the new position.
pub open spec fn server_move_spec(v: ChessGameView, m: ChessMove) -> ChessGameView {
    let g = after_move(v.game.unwrap(), m);
    ChessGameView {
        game: Some(g),
        server_moves: v.server_moves.push(m),
        expected_white: board_color_combined(position_of(g), Color::White),
        expected_black: board_color_combined(position_of(g), Color::Black),
        ..v
    }
}

/// The expected squares: those of both sides.
pub open spec fn expected_of(v: ChessGameView) -> u64 {
    v.expected_white | v.expected_black
}

/// The move is done: nothing is being moved and the board expects the pieces of the
/// current position.
pub open spec fn settle(v: ChessGameView) -> ChessGameView {
    match v.game {
        Some(g) => ChessGameView {
            playing_state: PlayingState::Idle,
            expected_white: board_color_combined(position_of(g), Color::White),
            expected_black: board_color_combined(position_of(g), Color::Black),
            ..v
        },
        None => v,
    }
}

/// Making move `m`: it must be legal; a move that is not the last one sent to the server
/// is sent first, and `accepted` is the server's answer. Gives the new state and whether
/// the move was made.
pub open spec fn execute_spec(v: ChessGameView, m: ChessMove, accepted: bool) -> (
    ChessGameView,
    bool,
) {
    match v.game {
        None => (v, false),
        Some(g) => if !spec_legal(position_of(g), m) {
            (v, false)
        } else if v.server_moves.len() == 0 || v.server_moves.last() != m {
            if !accepted {
                (v, false)
            } else {
                (
                    ChessGameView {
                        game: Some(GameView { history: g.history.push(m), ..g }),
                        server_moves: v.server_moves.push(m),
                        ..v
                    },
                    true,
                )
            }
        } else {
            (ChessGameView { game: Some(GameView { history: g.history.push(m), ..g }), ..v }, true)
        },
    }
}

/// The promotion of a piece placed on `to`: a pawn reaching the first or last rank
/// becomes a queen.
pub open spec fn promotion_for(piece: Piece, to: u8) -> Option<Piece> {
    if piece == Piece::Pawn && (to / 8 == 0 || to / 8 == 7) {
        Some(Piece::Queen)
    } else {
        None
    }
}

/// A piece is placed on `to`: this completes the move of the lifted piece, if the move is
/// legal (putting it back where it came from completes nothing but the lifting).
pub open spec fn place_spec(v: ChessGameView, to: u8, accepted: bool) -> ChessGameView {
    match v.game {
        None => v,
        Some(g) => match v.playing_state {
            PlayingState::Idle => v,
            PlayingState::MovingPiece { piece, from } => {
                if from != to {
                    let m = ChessMove { source: from, dest: to, promotion: promotion_for(piece, to) };
                    let (v2, made) = execute_spec(v, m, accepted);
                    if !made {
                        v2
                    } else {
                        settle(v2)
                    }
                } else {
                    settle(v)
                }
            },
        },
    }
}

/// A piece is lifted from `square`: with nothing lifted, a piece of the side to move
/// starts moving; while a piece is lifted, lifting an opponent's piece captures it, if
/// the capture is legal.
pub open spec fn remove_spec(v: ChessGameView, square: u8, accepted: bool) -> ChessGameView {
    match v.game {
        None => v,
        Some(g) => {
            let on = color_on_spec(position_of(g), square);
            let side = side_of(g);
            match v.playing_state {
                PlayingState::MovingPiece { piece, from } => {
                    if on == Some(side) {
                        v
                    } else {
                        let m = ChessMove { source: from, dest: square, promotion: None };
                        let (v2, made) = execute_spec(v, m, accepted);
                        if !made {
                            v2
                        } else {
                            settle(v2)
                        }
                    }
                },
                PlayingState::Idle => {
                    if on != Some(side) {
                        v
                    } else {
                        let playing_state = match board_piece_on(position_of(g), square) {
                            Some(i) => PlayingState::MovingPiece {
                                piece: piece_of_index(i),
                                from: square,
                            },
                            None => v.playing_state,
                        };
                        let bit = 1u64 << (square as u64);
                        if side == Color::White {
                            ChessGameView {
                                playing_state,
                                expected_white: v.expected_white ^ bit,
                                ..v
                            }
                        } else {
                            ChessGameView {
                                playing_state,
                                expected_black: v.expected_black ^ bit,
                                ..v
                            }
                        }
                    }
                },
            }
        },
    }
}

/// The board reports `physical`: it is recorded; unless the game is over, a board that
/// differs from the expected one in exactly one square lifts or places a piece there, and
/// any other board changes nothing.
pub open spec fn physical_step(v: ChessGameView, physical: u64, accepted: bool) -> ChessGameView {
    match v.game {
        None => v,
        Some(g) => {
            let v1 = ChessGameView { physical, ..v };
            let expected = expected_of(v);
            let diff = expected ^ physical;
            if result_of_game(g) is Some || !single_square(diff) {
                v1
            } else {
                let square = u64_trailing_zeros(diff) as u8;
                if physical > expected {
                    place_spec(v1, square, accepted)
                } else {
                    remove_spec(v1, square, accepted)
                }
            }
        },
    }
}

/// The move that a board differing in one square attempts: placing the lifted piece on
/// another square, or lifting an opponent's piece while one is lifted (a capture). None
/// where the board only lifts, puts back or changes nothing, or the game is over.
pub open spec fn attempted_move(v: ChessGameView, physical: u64) -> Option<ChessMove> {
    match v.game {
        None => None,
        Some(g) => {
            let expected = expected_of(v);
            let diff = expected ^ physical;
            if result_of_game(g) is Some || !single_square(diff) {
                None
            } else {
                let square = u64_trailing_zeros(diff) as u8;
                match v.playing_state {
                    PlayingState::Idle => None,
                    PlayingState::MovingPiece { piece, from } => if physical > expected {
                        if from != square {
                            Some(
                                ChessMove {
                                    source: from,
                                    dest: square,
                                    promotion: promotion_for(piece, square),
                                },
                            )
                        } else {
                            None
                        }
                    } else if color_on_spec(position_of(g), square) == Some(side_of(g)) {
                        None
                    } else {
                        Some(ChessMove { source: from, dest: square, promotion: None })
                    },
                }
            }
        },
    }
}

/// The move is sent to the server before it is made: it is legal and it is not the last
/// move the server knows.
pub open spec fn sends(v: ChessGameView, m: ChessMove) -> bool {
    &&& v.game matches Some(g) && spec_legal(position_of(g), m)
    &&& (v.server_moves.len() == 0 || v.server_moves.last() != m)
}

/// The move that the board `physical` makes the game send to the server, if any; the
/// server's answer to it decides `physical_step`.
pub open spec fn move_to_send_spec(v: ChessGameView, physical: u64) -> Option<ChessMove> {
    match attempted_move(v, physical) {
        Some(m) => if sends(v, m) {
            Some(m)
        } else {
            None
        },
        None => None,
    }
}

/// What one event of the connection does to the game: `Some((state, reload))`, where
/// `reload` says the event is a take-back (a server state with no more moves than the
/// server had) and the game must be loaded again; a state with more moves plays its last
/// move; an unknown event changes nothing. `None` where that last move is no move.
pub open spec fn event_step(v: ChessGameView, e: GameEvent) -> Option<(ChessGameView, bool)> {
    match e {
        GameEvent::Unknown => Some((v, false)),
        GameEvent::State(s) => if s.moves@.len() <= v.server_moves.len() {
            Some((v, true))
        } else {
            let t = s.moves@.last()@;
            if is_ascii_chars(t) && move_from_uci(t) is Some {
                Some(
                    (
                        server_move_spec(v, ChessMove::from_parts_spec(move_from_uci(t).unwrap())),
                        false,
                    ),
                )
            } else {
                None
            }
        },
    }
}

/// The game `g` loaded again, as `reset` loads it: the board expects its pieces and its
/// moves are those the server knows.
pub open spec fn reload_spec(v: ChessGameView, g: GameView) -> ChessGameView {
    ChessGameView {
        game: Some(g),
        expected_white: board_color_combined(position_of(g), Color::White),
        expected_black: board_color_combined(position_of(g), Color::Black),
        server_moves: g.history,
        ..v
    }
}

/// One event read in a tick, and the game the connection loaded again where the event
/// was a take-back.
pub struct EventRound {
    pub event: GameEvent,
    pub reloaded: Option<GameView>,
}

/// The game after one round: the event's step, then the reload where it asks for one.
pub open spec fn round_spec(v: ChessGameView, r: EventRound) -> Option<ChessGameView> {
    match event_step(v, r.event) {
        None => None,
        Some((u, reload)) => if !reload {
            if r.reloaded is None {
                Some(u)
            } else {
                None
            }
        } else {
            match r.reloaded {
                Some(g) => Some(reload_spec(u, g)),
                None => None,
            }
        },
    }
}

/// The game after the rounds `rs`, in order; `None` where one of them cannot happen.
pub open spec fn rounds_spec(v: ChessGameView, rs: Seq<EventRound>) -> Option<ChessGameView>
    decreases rs.len(),
{
    if rs.len() == 0 {
        Some(v)
    } else {
        match rounds_spec(v, rs.drop_last()) {
            Some(u) => round_spec(u, rs.last()),
            None => None,
        }
    }
}

/// A lifted piece stands on a board square.
pub open spec fn well_formed(v: ChessGameView) -> bool {
    v.playing_state matches PlayingState::MovingPiece { from, .. } ==> is_square(from)
}

/// The last move of the game, if any.
pub open spec fn last_move_of(v: ChessGameView) -> Option<ChessMove> {
    match v.game {
        Some(g) => if g.history.len() == 0 {
            None
        } else {
            Some(g.history.last())
        },
        None => None,
    }
}

/// Square `dest` is a destination of a legal move of the lifted piece.
pub open spec fn possible_square(v: ChessGameView, dest: u64) -> bool {
    match (v.game, v.playing_state) {
        (Some(g), PlayingState::MovingPiece { from, .. }) => destinations(
            board_legal_moves(position_of(g)),
            from,
            dest,
        ),
        _ => false,
    }
}

/// The destinations of the legal moves (as parts) that start on `from`.
pub open spec fn destinations(moves: Seq<(u8, u8, Option<usize>)>, from: u8, dest: u64) -> bool {
    exists|i: int| 0 <= i < moves.len() && #[trigger] moves[i].0 == from && moves[i].1 == dest
}

pub struct ChessGame {
    /// The local game; it validates moves before they are sent to the server.
    game: Option<GameRecord>,
    /// The connection to the server.
    connection: Box<dyn ChessConnector>,
    /// The squares the board should hold for white.
    expected_white: BitBoard,
    /// The squares the board should hold for black.
    expected_black: BitBoard,
    /// The last physical board.
    physical: BitBoard,
    /// Whether a piece is being moved.
    playing_state: PlayingState,
    /// The moves known to the server.
    server_moves: Vec<ChessMove>,
    /// The current game id.
    id: String,
}

impl View for ChessGame {
    type V = ChessGameView;

    closed spec fn view(&self) -> ChessGameView {
        ChessGameView {
            game: match self.game {
                Some(g) => Some(g@),
                None => None,
            },
            expected_white: self.expected_white.0,
            expected_black: self.expected_black.0,
            physical: self.physical.0,
            playing_state: self.playing_state,
            server_moves: self.server_moves@,
            id: self.id@,
        }
    }
}

} // verus!

verus! {

impl ChessGame {
    pub open spec fn wf(&self) -> bool {
        well_formed(self@)
    }

    /// A game with nothing loaded yet.
    pub fn new(connection: Box<dyn ChessConnector>) -> (r: Result<Self, ChessGameError>)
        ensures
            r matches Ok(g) && g.wf() && g@ == (ChessGameView {
                game: None,
                expected_white: 0,
                expected_black: 0,
                physical: 0,
                playing_state: PlayingState::Idle,
                server_moves: Seq::empty(),
                id: Seq::empty(),
            }),
    {
        let g = ChessGame {
            game: None,
            connection,
            expected_white: BitBoard(0),
            expected_black: BitBoard(0),
            physical: BitBoard::new(0),
            playing_state: PlayingState::Idle,
            server_moves: Vec::new(),
            id: String::new(),
        };
        proof {
            assert(g@ =~= ChessGameView {
                game: None,
                expected_white: 0,
                expected_black: 0,
                physical: 0,
                playing_state: PlayingState::Idle,
                server_moves: Seq::empty(),
                id: Seq::empty(),
            });
        }
        Ok(g)
    }

    /// The id of the loaded game.
    pub fn game_id(&self) -> (r: String)
        ensures
            r@ == self@.id,
    {
        self.id.clone()
    }

    /// A copy of the loaded game.
    pub fn game(&self) -> (r: Option<GameRecord>)
        ensures
            match self@.game {
                Some(g) => r matches Some(c) && c@ == g,
                None => r is None,
            },
    {
        match &self.game {
            Some(g) => Some(g.duplicate()),
            None => None,
        }
    }

    /// The last move of the loaded game.
    pub fn last_move(&self) -> (r: Option<ChessMove>)
        ensures
            r == last_move_of(self@),
    {
        match &self.game {
            Some(g) => g.last_move(),
            None => None,
        }
    }

    /// The squares the board should hold.
    pub fn expected_physical(&self) -> (r: BitBoard)
        ensures
            r.0 == expected_of(self@),
    {
        self.expected_white.or(self.expected_black)
    }

    /// Sets the expected squares to those of the current position.
    fn refresh_expected(&mut self)
        requires
            old(self)@.game is Some,
        ensures
            final(self)@ == (ChessGameView {
                expected_white: board_color_combined(
                    position_of(old(self)@.game.unwrap()),
                    Color::White,
                ),
                expected_black: board_color_combined(
                    position_of(old(self)@.game.unwrap()),
                    Color::Black,
                ),
                ..old(self)@
            }),
    {
        let position = match &self.game {
            Some(g) => g.current_position(),
            None => {
                return ;
            },
        };
        self.expected_white = BitBoard(position.color_combined(Color::White));
        self.expected_black = BitBoard(position.color_combined(Color::Black));
    }

    /// Loads the game `id` from the connection. On an error nothing changes.
    pub fn reset(&mut self, id: &str) -> (r: Result<(), ChessGameError>)
        requires
            old(self).wf(),
        ensures
            final(self).wf(),
            match r {
                Ok(()) => final(self)@.game matches Some(g) && final(self)@ == (ChessGameView {
                    game: Some(g),
                    expected_white: board_color_combined(position_of(g), Color::White),
                    expected_black: board_color_combined(position_of(g), Color::Black),
                    server_moves: g.history,
                    id: id@,
                    ..old(self)@
                }),
                Err(e) => e is LoadingGame && final(self)@ == old(self)@,
            },
    {
        match self.connection.load_game(id) {
            Err(e) => Err(ChessGameError::LoadingGame(e)),
            Ok(game) => {
                let moves = game.actions();
                proof {
                    assert(moves@ =~= game@.history);
                }
                let position = game.current_position();
                self.game = Some(game);
                self.id = id.to_string();
                self.server_moves = moves;
                self.expected_white = BitBoard(position.color_combined(Color::White));
                self.expected_black = BitBoard(position.color_combined(Color::Black));
                Ok(())
            },
        }
    }

    /// Makes a legal move, given the server's answer `accepted` where the move is sent
    /// (see `sends`): a move the server refuses is not made; a sent move joins the
    /// server's moves. Returns whether it was made.
    fn execute_move(&mut self, chess_move: ChessMove, accepted: bool) -> (r: bool)
        requires
            chess_move.wf(),
        ensures
            (final(self)@, r) == execute_spec(old(self)@, chess_move, accepted),
    {
        let legal = match &self.game {
            Some(g) => g.current_position().legal(chess_move),
            None => {
                return false;
            },
        };
        if !legal {
            return false;
        }
        let ghost before = self@;
        let n = self.server_moves.len();
        let sent = n == 0 || self.server_moves[n - 1] != chess_move;
        if sent {
            if !accepted {
                return false;
            }
            self.server_moves.push(chess_move);
        }
        let mut game = self.game.take().unwrap();
        let made = game.make_move(chess_move);
        assert(made);
        self.game = Some(game);
        proof {
            assert(self@ =~= execute_spec(before, chess_move, accepted).0);
        }
        true
    }

    /// A piece was placed on `to`.
    fn place_physical(&mut self, to: u8, accepted: bool)
        requires
            old(self).wf(),
            is_square(to),
        ensures
            final(self).wf(),
            final(self)@ == place_spec(old(self)@, to, accepted),
    {
        if self.game.is_none() {
            return ;
        }
        let ghost before = self@;
        match self.playing_state {
            PlayingState::MovingPiece { piece, from } => {
                let promotion = if piece == Piece::Pawn {
                    let rank_idx = to / 8;
                    if rank_idx == 0 || rank_idx == 7 {
                        Some(Piece::Queen)
                    } else {
                        None
                    }
                } else {
                    None
                };
                let chess_move = ChessMove::new(from, to, promotion);
                if from != to {
                    let made = self.execute_move(chess_move, accepted);
                    if !made {
                        return ;
                    }
                }
                self.playing_state = PlayingState::Idle;
                self.refresh_expected();
            },
            PlayingState::Idle => {},
        }
    }

    /// A piece was lifted from `square`.
    fn remove_physical(&mut self, square: u8, accepted: bool)
        requires
            old(self).wf(),
            is_square(square),
        ensures
            final(self).wf(),
            final(self)@ == remove_spec(old(self)@, square, accepted),
    {
        let (position, side) = match &self.game {
            Some(g) => (g.current_position(), g.side_to_move()),
            None => {
                return ;
            },
        };
        let on = position.color_on(square);
        let mine = match on {
            Some(c) => c == side,
            None => false,
        };
        match self.playing_state {
            PlayingState::MovingPiece { piece: _, from } => {
                if mine {
                    return ;
                }
                let chess_move = ChessMove::new(from, square, None);
                let made = self.execute_move(chess_move, accepted);
                if !made {
                    return ;
                }
                self.playing_state = PlayingState::Idle;
                self.refresh_expected();
            },
            PlayingState::Idle => {
                if !mine {
                    return ;
                }
                let ghost before = self@;
                if let Some(piece) = position.piece_on(square) {
                    self.playing_state = PlayingState::MovingPiece { piece, from: square };
                }
                let bit = BitBoard::from_square(square);
                if side == Color::White {
                    self.expected_white = self.expected_white.xor(bit);
                } else {
                    self.expected_black = self.expected_black.xor(bit);
                }
                assert(self@ =~= remove_spec(before, square, true));
            },
        }
    }

    /// The squares the lifted piece can move to.
    pub fn get_possible_moves(&self) -> (r: BitBoard)
        ensures
            forall|d: u64| d < 64 ==> (r.holds(d) <==> possible_square(self@, d)),
            !(self@.playing_state is MovingPiece) || self@.game is None ==> r.0 == 0,
    {
        let from = match self.playing_state {
            PlayingState::MovingPiece { piece: _, from } => from,
            PlayingState::Idle => {
                proof {
                    assert forall|d: u64| d < 64 implies !bit_at(0u64, d) by {
                        lemma_no_square(d);
                    }
                }
                return BitBoard::new(0);
            },
        };
        let position = match &self.game {
            Some(g) => g.current_position(),
            None => {
                proof {
                    assert forall|d: u64| d < 64 implies !bit_at(0u64, d) by {
                        lemma_no_square(d);
                    }
                }
                return BitBoard::new(0);
            },
        };
        let legal = position.legal_move_parts();
        let mut moves = BitBoard::new(0);
        let mut k: usize = 0;
        proof {
            assert forall|d: u64| d < 64 implies !bit_at(0u64, d) by {
                lemma_no_square(d);
            }
        }
        while k < legal.len()
            invariant
                k <= legal@.len(),
                legal@ == board_legal_moves(position@),
                forall|i: int| 0 <= i < legal@.len() ==> crate::position::parts_wf(#[trigger] legal@[i]),
                forall|d: u64|
                    d < 64 ==> (bit_at(moves.0, d) <==> exists|i: int|
                        0 <= i < k && #[trigger] legal@[i].0 == from && legal@[i].1 == d),
            decreases legal.len() - k,
        {
            let m = legal[k];
            if m.0 == from {
                let dest = BitBoard::from_square(m.1);
                let ghost old_moves = moves.0;
                moves = moves.or(dest);
                proof {
                    assert forall|d: u64| d < 64 implies (bit_at(moves.0, d) <==> exists|i: int|
                        0 <= i < k + 1 && #[trigger] legal@[i].0 == from && legal@[i].1 == d) by {
                        lemma_bit_ops(old_moves, dest.0, d);
                        lemma_square_word(m.1 as u64);
                        if bit_at(moves.0, d) && !bit_at(old_moves, d) {
                            assert(legal@[k as int].0 == from && legal@[k as int].1 == d);
                        }
                    }
                }
            } else {
                proof {
                    assert forall|d: u64| d < 64 implies (bit_at(moves.0, d) <==> exists|i: int|
                        0 <= i < k + 1 && #[trigger] legal@[i].0 == from && legal@[i].1 == d) by {
                        if exists|i: int|
                            0 <= i < k + 1 && #[trigger] legal@[i].0 == from && legal@[i].1 == d {
                            let i = choose|i: int|
                                0 <= i < k + 1 && #[trigger] legal@[i].0 == from && legal@[i].1 == d;
                            assert(i != k);
                        }
                    }
                }
            }
            k += 1;
        }
        moves
    }
    /// The move that the board `physical_board` makes the game send to the server, if any
    /// (see `move_to_send_spec`).
    pub fn move_to_send(&self, physical_board: BitBoard) -> (r: Option<ChessMove>)
        requires
            self.wf(),
        ensures
            r == move_to_send_spec(self@, physical_board.0),
            r matches Some(m) ==> m.wf(),
    {
        let (position, side, finished) = match &self.game {
            Some(g) => (g.current_position(), g.side_to_move(), g.result().is_some()),
            None => {
                return None;
            },
        };
        if finished {
            return None;
        }
        let expected_occupied = self.expected_physical();
        let diff = expected_occupied.get_different_bits(physical_board);
        if !diff.only_one_bit_set_to_one() {
            return None;
        }
        let square = diff.first_one();
        proof {
            lemma_one_square_apart(expected_occupied.0, square as u64);
        }
        let chess_move = match self.playing_state {
            PlayingState::Idle => {
                return None;
            },
            PlayingState::MovingPiece { piece, from } => {
                if physical_board.0 > expected_occupied.0 {
                    if from == square {
                        return None;
                    }
                    let promotion = if piece == Piece::Pawn && (square / 8 == 0 || square / 8 == 7) {
                        Some(Piece::Queen)
                    } else {
                        None
                    };
                    ChessMove::new(from, square, promotion)
                } else {
                    let mine = match position.color_on(square) {
                        Some(c) => c == side,
                        None => false,
                    };
                    if mine {
                        return None;
                    }
                    ChessMove::new(from, square, None)
                }
            },
        };
        if !position.legal(chess_move) {
            return None;
        }
        let n = self.server_moves.len();
        if n == 0 || self.server_moves[n - 1] != chess_move {
            Some(chess_move)
        } else {
            None
        }
    }

    /// The board reports `physical_board`, and `accepted` is the server's answer to the
    /// move it sends, if it sends one (see `physical_step`).
    pub fn apply_physical(&mut self, physical_board: BitBoard, accepted: bool)
        requires
            old(self).wf(),
        ensures
            final(self).wf(),
            final(self)@ == physical_step(old(self)@, physical_board.0, accepted),
    {
        if self.game.is_none() {
            return ;
        }
        let ghost before = self@;
        let expected_occupied = self.expected_physical();
        self.physical = physical_board;
        let finished = match &self.game {
            Some(g) => g.result().is_some(),
            None => true,
        };
        if finished {
            return ;
        }
        let diff = expected_occupied.get_different_bits(self.physical);
        if !diff.only_one_bit_set_to_one() {
            return ;
        }
        let square = diff.first_one();
        proof {
            lemma_one_square_apart(expected_occupied.0, square as u64);
        }
        assert(square == u64_trailing_zeros(expected_of(before) ^ physical_board.0) as u8);
        if physical_board.0 > expected_occupied.0 {
            self.place_physical(square, accepted);
        } else {
            self.remove_physical(square, accepted);
        }
    }

    /// The board reports `physical_board` (the second half of a tick): the move it makes
    /// the game send, if any, goes to the connection, and the connection's answer decides
    /// (see `physical_step`). Where no move is sent, no answer is asked for.
    pub fn update_physical(&mut self, physical_board: BitBoard)
        requires
            old(self).wf(),
        ensures
            final(self).wf(),
            match move_to_send_spec(old(self)@, physical_board.0) {
                None => final(self)@ == physical_step(old(self)@, physical_board.0, true),
                Some(_) => exists|a: bool| final(self)@ == physical_step(old(self)@, physical_board.0, a),
            },
    {
        let accepted = match self.move_to_send(physical_board) {
            Some(m) => self.connection.make_move(m),
            None => true,
        };
        self.apply_physical(physical_board, accepted);
    }

    /// Handles one event of the connection (see `event_step`): `Ok(true)` where it is a
    /// take-back and the game must be loaded again; a last move that is no move is a
    /// loading error, and nothing changes.
    pub fn apply_event(&mut self, event: GameEvent) -> (r: Result<bool, ChessGameError>)
        requires
            old(self).wf(),
            old(self)@.game is Some,
        ensures
            final(self).wf(),
            match event_step(old(self)@, event) {
                Some((u, reload)) => r matches Ok(b) && b == reload && final(self)@ == u,
                None => event matches GameEvent::State(s) && r matches Err(
                    ChessGameError::LoadingFen(t),
                ) && t@ == s.moves@.last()@ && final(self)@ == old(self)@,
            },
    {
        match event {
            GameEvent::Unknown => Ok(false),
            GameEvent::State(state) => {
                if state.moves.len() <= self.server_moves.len() {
                    return Ok(true);
                }
                let n = state.moves.len();
                match self.play_server_move(&state.moves[n - 1]) {
                    Ok(()) => Ok(false),
                    Err(e) => Err(e),
                }
            },
        }
    }

    /// Plays the last move of the server, given as UCI text: the move is made where it
    /// can be, it joins the server's moves, and the expected squares become those of the
    /// new position. Text that is no move is a loading error, and nothing changes.
    pub fn play_server_move(&mut self, last: &String) -> (r: Result<(), ChessGameError>)
        requires
            old(self).wf(),
            old(self)@.game is Some,
        ensures
            final(self).wf(),
            !(is_ascii_chars(last@) && move_from_uci(last@) is Some) ==> (r matches Err(
                ChessGameError::LoadingFen(t),
            ) && t@ == last@ && final(self)@ == old(self)@),
            is_ascii_chars(last@) && move_from_uci(last@) is Some ==> r is Ok && final(self)@
                == server_move_spec(
                old(self)@,
                ChessMove::from_parts_spec(move_from_uci(last@).unwrap()),
            ),
    {
        if !last.is_ascii() {
            return Err(ChessGameError::LoadingFen(last.clone()));
        }
        match parse_uci_parts(last.as_str()) {
            Some(parts) => {
                let chess_move = ChessMove::from_parts(parts);
                let mut game = self.game.take().unwrap();
                game.make_move(chess_move);
                self.game = Some(game);
                self.server_moves.push(chess_move);
                self.refresh_expected();
                Ok(())
            },
            None => Err(ChessGameError::LoadingFen(last.clone())),
        }
    }

    /// Updates the game from the connection's events and from the physical board (a set
    /// bit is an occupied square). Events are read until there is none, each handled by
    /// `apply_event`; a take-back loads the game again (`reset` with the game's id) and
    /// the reading goes on. Then `update_physical` runs. At most `u64::MAX` events are
    /// read in one tick. What the connection hands back is its own: the contract states
    /// the outcome for every sequence of events and reloaded games, and, where the board
    /// sends no move, without any answer of the server.
    pub fn tick(&mut self, physical_board: BitBoard) -> (r: Result<(), ChessGameError>)
        requires
            old(self).wf(),
        ensures
            final(self).wf(),
            old(self)@.game is None ==> r is Ok && final(self)@ == old(self)@,
            r is Ok && old(self)@.game is Some ==> exists|rs: Seq<EventRound>|
                #[trigger] rounds_spec(old(self)@, rs) matches Some(mid) && match move_to_send_spec(
                    mid,
                    physical_board.0,
                ) {
                    None => final(self)@ == physical_step(mid, physical_board.0, true),
                    Some(_) => exists|a: bool| final(self)@ == #[trigger] physical_step(mid, physical_board.0, a),
                },
            r is Err ==> exists|rs: Seq<EventRound>| #[trigger] rounds_spec(old(self)@, rs) == Some(
                final(self)@,
            ),
    {
        if self.game.is_none() {
            return Ok(());
        }
        let ghost start = self@;
        let ghost mut rs: Seq<EventRound> = Seq::empty();
        let mut rounds: u64 = 0;
        loop
            invariant
                self.wf(),
                self@.game is Some,
                self@.id == start.id,
                start == old(self)@,
                start.game is Some,
                rounds_spec(start, rs) == Some(self@),
            ensures
                self.wf(),
                self@.game is Some,
                rounds_spec(start, rs) == Some(self@),
            decreases u64::MAX - rounds,
        {
            if rounds == u64::MAX {
                break;
            }
            rounds = rounds + 1;
            let event = match self.connection.next_event() {
                Ok(e) => e,
                Err(e) => {
                    return Err(ChessGameError::LoadingGame(e));
                },
            };
            let event = match event {
                None => {
                    break;
                },
                Some(e) => e,
            };
            let ghost ev = event;
            let ghost before = self@;
            let reload = match self.apply_event(event) {
                Ok(b) => b,
                Err(e) => {
                    return Err(e);
                },
            };
            if reload {
                // A take-back: load the game again and read the events anew.
                let game_id = self.id.clone();
                match self.reset(game_id.as_str()) {
                    Ok(()) => {},
                    Err(e) => {
                        return Err(e);
                    },
                }
                proof {
                    let round = EventRound { event: ev, reloaded: self@.game };
                    assert(self@ =~= reload_spec(before, self@.game.unwrap()));
                    assert(rs.push(round).drop_last() =~= rs);
                    rs = rs.push(round);
                }
            } else {
                proof {
                    let round = EventRound { event: ev, reloaded: None };
                    assert(rs.push(round).drop_last() =~= rs);
                    rs = rs.push(round);
                }
            }
        }
        let ghost mid = self@;
        let sent = self.move_to_send(physical_board);
        let accepted = match sent {
            Some(m) => self.connection.make_move(m),
            None => true,
        };
        self.apply_physical(physical_board, accepted);
        assert(rounds_spec(old(self)@, rs) == Some(mid));
        assert(self@ == physical_step(mid, physical_board.0, accepted));
        Ok(())
    }

    /// A snapshot of the game, if one is loaded.
    pub fn get_state(&self) -> (r: Option<ChessGameState>)
        ensures
            match self@.game {
                None => r is None,
                Some(g) => r matches Some(s) && s.physical.0 == self@.physical
                    && s.expected_physical.0 == expected_of(self@) && s.playing_state
                    == self@.playing_state && s.last_move == last_move_of(self@)
                    && (forall|d: u64| d < 64 ==> (s.possible_moves.holds(d) <==> possible_square(self@, d)))
                    && s.current_position@ == position_of(g) && s.active_player == side_of(g),
            },
    {
        match &self.game {
            Some(game) => Some(ChessGameState {
                physical: self.physical,
                expected_physical: self.expected_physical(),
                playing_state: self.playing_state,
                last_move: self.last_move(),
                possible_moves: self.get_possible_moves(),
                current_position: game.current_position(),
                active_player: game.side_to_move(),
            }),
            None => None,
        }
    }
}

impl ChessGame {
    /// The picture of the game (see `render::picture`), or "No game".
    pub fn render(&self) -> (r: String)
        requires
            self.wf(),
        ensures
            match self@.game {
                None => r@ == "No game"@,
                Some(g) => r@ == picture(side_of(g), self@.playing_state, position_of(g)),
            },
    {
        match self.get_state() {
            Some(s) => draw(&s),
            None => "No game".to_string(),
        }
    }
}

/// A board that is ambiguous (it differs from the expected squares in none or in more
/// than one square) is only recorded: nothing else changes until it is restored.
pub proof fn law_ambiguous_board_is_ignored(v: ChessGameView, physical: u64, accepted: bool)
    requires
        v.game is Some,
        !single_square(expected_of(v) ^ physical),
    ensures
        physical_step(v, physical, accepted) == (ChessGameView { physical, ..v }),
{
}

/// Once the game is over, a board only gets recorded.
pub proof fn law_finished_game_is_frozen(v: ChessGameView, physical: u64, accepted: bool)
    requires
        v.game matches Some(g) && result_of_game(g) is Some,
    ensures
        physical_step(v, physical, accepted) == (ChessGameView { physical, ..v }),
{
}

/// With nothing lifted, lifting a piece that is not of the side to move changes nothing
/// but the recorded board.
pub proof fn law_only_own_pieces_are_lifted(v: ChessGameView, physical: u64, accepted: bool)
    requires
        v.game matches Some(g) && result_of_game(g) is None,
        v.playing_state == PlayingState::Idle,
        single_square(expected_of(v) ^ physical),
        physical < expected_of(v),
        color_on_spec(
            position_of(v.game.unwrap()),
            u64_trailing_zeros(expected_of(v) ^ physical) as u8,
        ) != Some(side_of(v.game.unwrap())),
    ensures
        physical_step(v, physical, accepted) == (ChessGameView { physical, ..v }),
{
}

/// A board report makes at most one move, and only a legal one: the game's start stays,
/// and its moves either stay or gain one move that is legal in the position before it;
/// the server's moves stay or gain that same move; and a made move leaves nothing lifted
/// and the expected squares equal to those of the new position.
pub proof fn law_only_legal_moves_are_made(v: ChessGameView, physical: u64, accepted: bool)
    requires
        v.game is Some,
    ensures
        ({
            let g = v.game.unwrap();
            let w = physical_step(v, physical, accepted);
            &&& w.game matches Some(h) && h.start == g.start
            &&& w.id == v.id
            &&& {
                ||| w.game.unwrap().history == g.history && (w.server_moves == v.server_moves)
                ||| exists|m: ChessMove|
                    spec_legal(position_of(g), m) && w.game.unwrap().history == g.history.push(m)
                        && (w.server_moves == v.server_moves || w.server_moves
                        == v.server_moves.push(m)) && w.playing_state == PlayingState::Idle
                        && w.expected_white == board_color_combined(
                        position_of(w.game.unwrap()),
                        Color::White,
                    ) && w.expected_black == board_color_combined(
                        position_of(w.game.unwrap()),
                        Color::Black,
                    )
            }
        }),
{
    let g = v.game.unwrap();
    let v1 = ChessGameView { physical, ..v };
    let diff = expected_of(v) ^ physical;
    if result_of_game(g) is Some || !single_square(diff) {
    } else {
        let square = u64_trailing_zeros(diff) as u8;
        match v.playing_state {
            PlayingState::Idle => {},
            PlayingState::MovingPiece { piece, from } => {
                if physical > expected_of(v) {
                    if from != square {
                        let m = ChessMove {
                            source: from,
                            dest: square,
                            promotion: promotion_for(piece, square),
                        };
                        let (v2, made) = execute_spec(v1, m, accepted);
                        if made {
                            assert(spec_legal(position_of(g), m));
                        }
                    }
                } else {
                    let m = ChessMove { source: from, dest: square, promotion: None };
                    let (v2, made) = execute_spec(v1, m, accepted);
                    if made {
                        assert(spec_legal(position_of(g), m));
                    }
                }
            },
        }
    }
}

} // verus!

verus! {

/// Placing the lifted piece on another square where the move is not made (it is not
/// legal, or the server refuses it) changes nothing: the position, the server's moves,
/// the lifted piece and the expected squares stay as they were.
pub proof fn law_refused_placement_keeps_the_game(v: ChessGameView, to: u8, accepted: bool)
    requires
        v.game is Some,
        match v.playing_state {
            PlayingState::MovingPiece { piece, from } => from != to && !execute_spec(
                v,
                ChessMove { source: from, dest: to, promotion: promotion_for(piece, to) },
                accepted,
            ).1,
            PlayingState::Idle => false,
        },
    ensures
        place_spec(v, to, accepted) == v,
{
}

/// Putting the lifted piece back where it came from ends the lifting: nothing is lifted
/// and the board expects the pieces of the position, which is unchanged.
pub proof fn law_put_back_settles(v: ChessGameView, accepted: bool)
    requires
        v.game is Some,
        v.playing_state is MovingPiece,
    ensures
        ({
            let from = v.playing_state->from;
            place_spec(v, from, accepted) == settle(v) && settle(v).game == v.game
                && settle(v).server_moves == v.server_moves && settle(v).playing_state
                == PlayingState::Idle
        }),
{
}

} // verus!

verus! {

/// A board that differs from the expected squares `e` in square `k` alone differs in one
/// square, that square, and has a piece more exactly when `e` has none there.
proof fn lemma_one_square_changed(e: u64, k: u64)
    requires
        k < 64,
    ensures
        single_square(e ^ (e ^ (1u64 << k))),
        u64_trailing_zeros(e ^ (e ^ (1u64 << k))) as u64 == k,
        (e ^ (1u64 << k)) > e <==> !bit_at(e, k),
{
    lemma_one_square_apart(e, k);
    let x = 1u64 << k;
    assert(single_square(x));
    lemma_single_square_index(x);
    let t = u64_trailing_zeros(x) as u64;
    if t != k {
        lemma_square_word(k);
        lemma_square_word(t);
        assert(bit_at(1u64 << t, t));
        assert(!bit_at(1u64 << k, t));
    }
}

/// Capturing by lifting: while a piece is lifted, lifting an opponent's piece from a
/// square the lifted piece can legally move to makes exactly that move (no promotion):
/// it is sent to the server unless it is the server's last move; once it is made (the
/// server accepts it) the game gains that move, nothing is lifted, and the board expects
/// the pieces of the new position. Refused, it changes nothing but the recorded board.
pub proof fn law_lifting_an_opponent_piece_captures(v: ChessGameView, square: u8, accepted: bool)
    requires
        v.game matches Some(g) && result_of_game(g) is None,
        is_square(square),
        v.playing_state matches PlayingState::MovingPiece { from, .. } && spec_legal(
            position_of(v.game.unwrap()),
            ChessMove { source: from, dest: square, promotion: None },
        ),
        color_on_spec(position_of(v.game.unwrap()), square) == Some(
            side_of(v.game.unwrap()).opponent(),
        ),
        bit_at(expected_of(v), square as u64),
    ensures
        ({
            let g = v.game.unwrap();
            let m = ChessMove { source: v.playing_state->from, dest: square, promotion: None };
            let physical = expected_of(v) ^ (1u64 << (square as u64));
            let w = physical_step(v, physical, accepted);
            let sent = v.server_moves.len() == 0 || v.server_moves.last() != m;
            &&& sent ==> move_to_send_spec(v, physical) == Some(m)
            &&& (accepted || !sent) ==> {
                &&& w.game == Some(GameView { start: g.start, history: g.history.push(m) })
                &&& w.server_moves == (if sent {
                    v.server_moves.push(m)
                } else {
                    v.server_moves
                })
                &&& w.playing_state == PlayingState::Idle
                &&& w.expected_white == board_color_combined(position_of(w.game.unwrap()), Color::White)
                &&& w.expected_black == board_color_combined(position_of(w.game.unwrap()), Color::Black)
            }
            &&& (!accepted && sent) ==> w == (ChessGameView { physical, ..v })
        }),
{
    lemma_one_square_changed(expected_of(v), square as u64);
}

/// A move made on the board is sent to the server first unless the server already knows
/// it as its last move: placing the lifted piece on another square it can legally move
/// to, where the server's last move is another one (or it knows none), sends that move;
/// a refusal changes nothing but the recorded board, and an acceptance makes the move
/// and adds it to the server's moves.
pub proof fn law_moves_are_sent_to_the_server(v: ChessGameView, to: u8)
    requires
        v.game matches Some(g) && result_of_game(g) is None,
        is_square(to),
        v.playing_state matches PlayingState::MovingPiece { piece, from } && from != to
            && spec_legal(
            position_of(v.game.unwrap()),
            ChessMove { source: from, dest: to, promotion: promotion_for(piece, to) },
        ) && (v.server_moves.len() == 0 || v.server_moves.last() != ChessMove {
            source: from,
            dest: to,
            promotion: promotion_for(piece, to),
        }),
        !bit_at(expected_of(v), to as u64),
    ensures
        ({
            let g = v.game.unwrap();
            let m = ChessMove {
                source: v.playing_state->from,
                dest: to,
                promotion: promotion_for(v.playing_state->piece, to),
            };
            let physical = expected_of(v) ^ (1u64 << (to as u64));
            &&& move_to_send_spec(v, physical) == Some(m)
            &&& physical_step(v, physical, false) == (ChessGameView { physical, ..v })
            &&& physical_step(v, physical, true).game == Some(
                GameView { start: g.start, history: g.history.push(m) },
            )
            &&& physical_step(v, physical, true).server_moves == v.server_moves.push(m)
            &&& physical_step(v, physical, true).playing_state == PlayingState::Idle
        }),
{
    lemma_one_square_changed(expected_of(v), to as u64);
}

} // verus!
