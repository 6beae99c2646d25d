//! A game: a `chess::Game` in which only moves are made (no draw offers or resignations),
//! seen as its starting position and the moves made from it.
use vstd::prelude::*;
use crate::fen::kings_placed;
use crate::position::{
    board_from_fen, board_make_move, board_side_to_move, board_status, fen_board, game_action_parts,
    game_actions, game_clone, game_from_position, game_make_move, game_new, game_position,
    game_result, game_side_to_move, game_start, parts_wf, spec_legal, start_fen, BoardStatus,
    ChessMove, Color, Position,
};

verus! {

/// How a finished game ended.
#[derive(Clone, Copy, PartialEq, Eq, Structural, Debug)]
pub enum GameResult {
    WhiteCheckmates,
    WhiteResigns,
    BlackCheckmates,
    BlackResigns,
    Stalemate,
    DrawAccepted,
    DrawDeclared,
}

/// The position reached by playing `moves` from `start`.
pub open spec fn replay(start: Seq<char>, moves: Seq<ChessMove>) -> Seq<char>
    decreases moves.len(),
{
    if moves.len() == 0 {
        start
    } else {
        board_make_move(replay(start, moves.drop_last()), moves.last().parts())
    }
}

/// Every move was legal in the position it was played in.
pub open spec fn legal_history(start: Seq<char>, moves: Seq<ChessMove>) -> bool {
    forall|i: int|
        0 <= i < moves.len() ==> #[trigger] moves[i].wf() && spec_legal(
            replay(start, moves.take(i)),
            moves[i],
        )
}

/// The side to move after `count` moves from a start where `first` moves: white when the
/// count of half moves, counting a black start as one, is even.
pub open spec fn side_after(first: Color, count: nat) -> Color {
    let n = count + if first == Color::White { 0nat } else { 1nat };
    if n % 2 == 0 {
        Color::White
    } else {
        Color::Black
    }
}

/// The result of a game whose position has the given status and side to move.
pub open spec fn result_of(status: BoardStatus, side: Color) -> Option<GameResult> {
    match status {
        BoardStatus::Checkmate => if side == Color::White {
            Some(GameResult::BlackCheckmates)
        } else {
            Some(GameResult::WhiteCheckmates)
        },
        BoardStatus::Stalemate => Some(GameResult::Stalemate),
        BoardStatus::Ongoing => None,
    }
}

/// The moves of a game's actions, each action read as a move.
pub open spec fn moves_of_actions(acts: Seq<Option<(u8, u8, Option<usize>)>>) -> Seq<ChessMove> {
    acts.map_values(|a: Option<(u8, u8, Option<usize>)>| ChessMove::from_parts_spec(a.unwrap()))
}

/// Every action is a move between board squares.
pub open spec fn only_moves(acts: Seq<Option<(u8, u8, Option<usize>)>>) -> bool {
    forall|i: int| 0 <= i < acts.len() ==> ((#[trigger] acts[i]) matches Some(p) && parts_wf(p))
}

/// What a game holds: its starting position (FEN) and its moves.
#[verifier::ext_equal]
pub struct GameView {
    pub start: Seq<char>,
    pub history: Seq<ChessMove>,
}

/// FEN of the current position of a game.
pub open spec fn position_of(g: GameView) -> Seq<char> {
    replay(g.start, g.history)
}

/// The side to move in a game.
pub open spec fn side_of(g: GameView) -> Color {
    side_after(board_side_to_move(g.start), g.history.len())
}

/// The result of a game, if it is over.
pub open spec fn result_of_game(g: GameView) -> Option<GameResult> {
    result_of(board_status(position_of(g)), side_of(g))
}

/// The game after `m` is made where it can be: a move that is illegal, or that comes
/// after the end of the game, leaves the game as it is (as `chess::Game::make_move`).
pub open spec fn after_move(g: GameView, m: ChessMove) -> GameView {
    if result_of_game(g) is None && spec_legal(position_of(g), m) {
        GameView { start: g.start, history: g.history.push(m) }
    } else {
        g
    }
}

/// A game of the `chess` crate (`chess::Game`) in which only moves are made.
pub struct GameRecord {
    inner: chess::Game,
}

impl View for GameRecord {
    type V = GameView;

    open spec fn view(&self) -> GameView {
        GameView { start: self.start_fen(), history: self.history() }
    }
}

/// A move read back from its parts is the move.
proof fn lemma_parts_round_trip(m: ChessMove)
    ensures
        ChessMove::from_parts_spec(m.parts()) == m,
{
}

impl GameRecord {
    #[verifier::type_invariant]
    spec fn inv(self) -> bool {
        &&& only_moves(game_actions(self.inner))
        &&& legal_history(game_start(self.inner), moves_of_actions(game_actions(self.inner)))
    }

    /// FEN of the starting position.
    pub closed spec fn start_fen(self) -> Seq<char> {
        game_start(self.inner)
    }

    /// The moves made, oldest first.
    pub closed spec fn history(self) -> Seq<ChessMove> {
        moves_of_actions(game_actions(self.inner))
    }

    /// FEN of the current position.
    pub open spec fn position(self) -> Seq<char> {
        replay(self.start_fen(), self.history())
    }

    /// The side to move.
    pub open spec fn spec_side_to_move(self) -> Color {
        side_after(board_side_to_move(self.start_fen()), self.history().len())
    }

    /// The result, if the game is over.
    pub open spec fn spec_result(self) -> Option<GameResult> {
        result_of(board_status(self.position()), self.spec_side_to_move())
    }

    /// A game from the standard starting position (`chess::Game::new`).
    pub fn new() -> (r: GameRecord)
        ensures
            r.start_fen() == start_fen(),
            r.spec_side_to_move() == Color::White,
            board_from_fen(start_fen()) == Some(r.start_fen()),
            r.history() == Seq::<ChessMove>::empty(),
    {
        let inner = game_new();
        assert(moves_of_actions(game_actions(inner)) =~= Seq::<ChessMove>::empty());
        GameRecord { inner }
    }

    /// A game from the position in `fen` (`chess::Game::from_str`), or `None` where the
    /// text is not ASCII, the crate rejects the FEN or it does not place both kings.
    pub fn from_fen(fen: &str) -> (r: Option<GameRecord>)
        ensures
            match r {
                Some(g) => fen.is_ascii() && fen_board(fen@) == Some(g.start_fen())
                    && g.history() == Seq::<ChessMove>::empty(),
                None => !fen.is_ascii() || fen_board(fen@) is None,
            },
    {
        if !fen.is_ascii() {
            return None;
        }
        if !kings_placed(fen) {
            return None;
        }
        match Position::from_fen(fen) {
            Some(start) => {
                let inner = game_from_position(&start);
                assert(moves_of_actions(game_actions(inner)) =~= Seq::<ChessMove>::empty());
                Some(GameRecord { inner })
            },
            None => None,
        }
    }

    /// A copy of the game.
    pub fn duplicate(&self) -> (r: GameRecord)
        ensures
            r@ == self@,
    {
        proof {
            use_type_invariant(self);
        }
        GameRecord { inner: game_clone(&self.inner) }
    }

    /// The current position.
    pub fn current_position(&self) -> (r: Position)
        ensures
            r@ == self.position(),
    {
        proof {
            use_type_invariant(self);
        }
        game_position(&self.inner)
    }

    /// The moves made, oldest first.
    pub fn actions(&self) -> (r: Vec<ChessMove>)
        ensures
            r@ == self.history(),
            legal_history(self.start_fen(), self.history()),
    {
        proof {
            use_type_invariant(self);
        }
        let acts = game_action_parts(&self.inner);
        let mut out: Vec<ChessMove> = Vec::new();
        let mut i: usize = 0;
        while i < acts.len()
            invariant
                i <= acts@.len(),
                acts@ == game_actions(self.inner),
                only_moves(acts@),
                out@ == moves_of_actions(acts@).take(i as int),
            decreases acts@.len() - i,
        {
            assert(acts@[i as int] matches Some(p) && parts_wf(p));
            let p = acts[i].unwrap();
            out.push(ChessMove::from_parts(p));
            i += 1;
            assert(out@ =~= moves_of_actions(acts@).take(i as int));
        }
        assert(out@ =~= moves_of_actions(acts@));
        out
    }

    /// The last move made, if any.
    pub fn last_move(&self) -> (r: Option<ChessMove>)
        ensures
            r == (if self.history().len() == 0 {
                None
            } else {
                Some(self.history().last())
            }),
    {
        proof {
            use_type_invariant(self);
        }
        let acts = game_action_parts(&self.inner);
        let n = acts.len();
        if n == 0 {
            None
        } else {
            assert(acts@[n - 1] matches Some(p) && parts_wf(p));
            Some(ChessMove::from_parts(acts[n - 1].unwrap()))
        }
    }

    /// The side to move, counted from the start position (`chess::Game::side_to_move`).
    pub fn side_to_move(&self) -> (r: Color)
        ensures
            r == self.spec_side_to_move(),
    {
        proof {
            use_type_invariant(self);
        }
        game_side_to_move(&self.inner)
    }

    /// The result, if the game is over (checkmate or stalemate; `chess::Game::result`).
    pub fn result(&self) -> (r: Option<GameResult>)
        ensures
            r == self.spec_result(),
    {
        proof {
            use_type_invariant(self);
        }
        game_result(&self.inner)
    }

    /// Makes a move if the game is not over and the move is legal
    /// (`chess::Game::make_move`). Returns whether it was made.
    pub fn make_move(&mut self, m: ChessMove) -> (r: bool)
        requires
            m.wf(),
        ensures
            r == (old(self).spec_result() is None && spec_legal(old(self).position(), m)),
            spec_legal(old(self).position(), m) ==> r,
            r ==> final(self).history() == old(self).history().push(m),
            !r ==> final(self).history() == old(self).history(),
            final(self).start_fen() == old(self).start_fen(),
    {
        proof {
            use_type_invariant(&*self);
            lemma_parts_round_trip(m);
        }
        let mut inner = game_clone(&self.inner);
        let ghost acts = game_actions(inner);
        let ghost start = game_start(inner);
        let made = game_make_move(&mut inner, m.to_parts());
        proof {
            if made {
                let moves = moves_of_actions(game_actions(inner));
                let old_moves = moves_of_actions(acts);
                assert(moves =~= old_moves.push(m));
                assert(moves.drop_last() =~= old_moves);
                assert forall|i: int| 0 <= i < moves.len() implies #[trigger] moves[i].wf()
                    && spec_legal(replay(start, moves.take(i)), moves[i]) by {
                    if i < old_moves.len() {
                        assert(moves.take(i) =~= old_moves.take(i));
                    } else {
                        assert(moves.take(i) =~= old_moves);
                    }
                }
                assert forall|i: int| 0 <= i < game_actions(inner).len() implies ((#[trigger] game_actions(inner)[i]) matches Some(p) && parts_wf(p)) by {
                    if i < acts.len() {
                        assert(game_actions(inner)[i] == acts[i]);
                    }
                }
            }
        }
        *self = GameRecord { inner };
        made
    }
}

} // verus!
