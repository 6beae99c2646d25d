//! Tic-tac-toe on the corner of the board, played by putting stones on empty fields.
use vstd::prelude::*;
use crate::bitboard::{bit_of, only_different, only_one_bit_set_to_one, set_bit, single_bit};

verus! {

/// The eight lines of three that win.
pub open spec fn winning_mask(i: int) -> u32 {
    if i == 0 {
        0b00000111_00000000_00000000u32
    } else if i == 1 {
        0b00000000_00000111_00000000u32
    } else if i == 2 {
        0b00000000_00000000_00000111u32
    } else if i == 3 {
        0b00000100_00000100_00000100u32
    } else if i == 4 {
        0b00000010_00000010_00000010u32
    } else if i == 5 {
        0b00000001_00000001_00000001u32
    } else if i == 6 {
        0b00000100_00000010_00000001u32
    } else {
        0b00000001_00000010_00000100u32
    }
}

/// The stones `p` hold a winning line.
pub open spec fn wins(p: u32) -> bool {
    exists|i: int| 0 <= i < 8 && #[trigger] (p & winning_mask(i)) == winning_mask(i)
}

/// The bit of field (`row`, `column`) of an `n` by `n` board: the board sits in the
/// lowest corner of an 8-wide chess board, row 0 on top, column 0 on the left.
pub open spec fn cell_pos(n: int, row: int, column: int) -> int {
    (n - row - 1) * n + (n - column - 1) + (n - row - 1) * (8 - n)
}

/// Every occupied field of the board has a bit in a 32-bit word.
pub open spec fn fits<const N: usize>(board: [[bool; N]; N]) -> bool {
    forall|r: int, c: int|
        0 <= r < N && 0 <= c < N && #[trigger] board[r][c] ==> N <= 8 && cell_pos(
            N as int,
            r,
            c,
        ) < 32
}

/// The word of a board: bit `cell_pos` set for every occupied field, and no other bit.
pub open spec fn board_word<const N: usize>(board: [[bool; N]; N], w: u32) -> bool {
    forall|p: u32|
        p < 32 ==> (bit_of(w, p) <==> exists|r: int, c: int|
            0 <= r < N && 0 <= c < N && #[trigger] board[r][c] && cell_pos(N as int, r, c) == p)
}

proof fn lemma_zero_word(p: u32)
    ensures
        !bit_of(0u32, p),
{
    assert((0u32 >> p) & 1u32 != 1u32) by (bit_vector);
}

/// Converts the occupied fields to a word (see `cell_pos`).
pub fn to_bit_board<const N: usize>(board: [[bool; N]; N]) -> (r: u32)
    requires
        fits(board),
    ensures
        board_word(board, r),
{
    let mut bit_board: u32 = 0;
    let mut row: usize = 0;
    proof {
        assert forall|p: u32| p < 32 implies !bit_of(0u32, p) by {
            lemma_zero_word(p);
        }
    }
    while row < N
        invariant
            row <= N,
            fits(board),
            forall|p: u32|
                p < 32 ==> (bit_of(bit_board, p) <==> exists|r: int, c: int|
                    0 <= r < row && 0 <= c < N && #[trigger] board[r][c] && cell_pos(
                        N as int,
                        r,
                        c,
                    ) == p),
        decreases N - row,
    {
        let mut column: usize = 0;
        while column < N
            invariant
                row < N,
                column <= N,
                fits(board),
                forall|p: u32|
                    p < 32 ==> (bit_of(bit_board, p) <==> exists|r: int, c: int|
                        0 <= r < N && 0 <= c < N && (r < row || (r == row && c < column))
                            && #[trigger] board[r][c] && cell_pos(N as int, r, c) == p),
            decreases N - column,
        {
            if board[row][column] {
                assert(N <= 8 && cell_pos(N as int, row as int, column as int) < 32);
                let pos = (N - row - 1) * N + (N - column - 1) + (N - row - 1) * (8 - N);
                let ghost old_board = bit_board;
                bit_board = set_bit(bit_board, pos);
                proof {
                    assert forall|p: u32| p < 32 implies (bit_of(bit_board, p) <==> exists|
                        r: int,
                        c: int,
                    |
                        0 <= r < N && 0 <= c < N && (r < row || (r == row && c < column + 1))
                            && #[trigger] board[r][c] && cell_pos(N as int, r, c) == p) by {
                        if p != pos {
                            if exists|r: int, c: int|
                                0 <= r < N && 0 <= c < N && (r < row || (r == row && c < column
                                    + 1)) && #[trigger] board[r][c] && cell_pos(N as int, r, c)
                                    == p {
                                let (r, c) = choose|r: int, c: int|
                                    0 <= r < N && 0 <= c < N && (r < row || (r == row && c
                                        < column + 1)) && #[trigger] board[r][c] && cell_pos(
                                        N as int,
                                        r,
                                        c,
                                    ) == p;
                                assert(!(r == row && c == column));
                            }
                        }
                    }
                }
            } else {
                proof {
                    assert forall|p: u32| p < 32 implies (bit_of(bit_board, p) <==> exists|
                        r: int,
                        c: int,
                    |
                        0 <= r < N && 0 <= c < N && (r < row || (r == row && c < column + 1))
                            && #[trigger] board[r][c] && cell_pos(N as int, r, c) == p) by {
                        if exists|r: int, c: int|
                            0 <= r < N && 0 <= c < N && (r < row || (r == row && c < column + 1))
                                && #[trigger] board[r][c] && cell_pos(N as int, r, c) == p {
                            let (r, c) = choose|r: int, c: int|
                                0 <= r < N && 0 <= c < N && (r < row || (r == row && c < column
                                    + 1)) && #[trigger] board[r][c] && cell_pos(N as int, r, c)
                                    == p;
                            assert(!(r == row && c == column));
                        }
                    }
                }
            }
            column += 1;
        }
        row += 1;
    }
    bit_board
}

/// What a game of tic-tac-toe holds.
pub struct TicTacToeView {
    pub player0: u32,
    pub player1: u32,
    pub current_player: usize,
    pub last_board: u32,
    pub winner: Option<usize>,
}

/// The winner after a move: the first player, in index order, with a winning line.
pub open spec fn winner_after(v: TicTacToeView) -> Option<usize> {
    if wins(v.player0) {
        Some(0)
    } else if wins(v.player1) {
        Some(1)
    } else {
        v.winner
    }
}

/// One tick with the board word `new_board`: an emptied board starts a new game; unless
/// there is a winner, a board that adds exactly one stone gives that stone to the player
/// to move, passes the turn and looks for a winner; any other board changes nothing.
pub open spec fn tick_spec(v: TicTacToeView, new_board: u32) -> TicTacToeView {
    let v1 = if new_board == 0 && v.last_board != 0 {
        TicTacToeView { player0: 0, player1: 0, current_player: 0, last_board: 0, winner: None }
    } else {
        v
    };
    let diff = new_board ^ v1.last_board;
    if v1.winner is Some || v1.last_board >= new_board || !single_bit(diff) {
        v1
    } else {
        let v2 = TicTacToeView {
            player0: if v1.current_player == 0 { v1.player0 | diff } else { v1.player0 },
            player1: if v1.current_player == 1 { v1.player1 | diff } else { v1.player1 },
            current_player: if v1.current_player == 1 { 0 } else { 1 },
            last_board: new_board,
            ..v1
        };
        TicTacToeView { winner: winner_after(v2), ..v2 }
    }
}

/// The stones of the two players are apart and together make the board.
pub open spec fn consistent(v: TicTacToeView) -> bool {
    &&& v.player0 & v.player1 == 0
    &&& v.player0 | v.player1 == v.last_board
    &&& v.current_player < 2
    &&& (v.winner matches Some(w) ==> w < 2)
}

pub struct TicTacToe<const N: usize> {
    /// The stones of each player.
    pub players: [u32; 2],
    current_player: usize,
    /// The board at the last accepted move.
    pub last_board: u32,
    /// The winner, if any.
    pub winner: Option<usize>,
}

impl<const N: usize> View for TicTacToe<N> {
    type V = TicTacToeView;

    closed spec fn view(&self) -> TicTacToeView {
        TicTacToeView {
            player0: self.players[0],
            player1: self.players[1],
            current_player: self.current_player,
            last_board: self.last_board,
            winner: self.winner,
        }
    }
}

impl<const N: usize> TicTacToe<N> {
    pub open spec fn wf(&self) -> bool {
        consistent(self@)
    }

    /// An empty game; player 0 moves first.
    pub fn new() -> (r: Self)
        ensures
            r@ == (TicTacToeView {
                player0: 0,
                player1: 0,
                current_player: 0,
                last_board: 0,
                winner: None,
            }),
            r.wf(),
    {
        proof {
            lemma_empty_stones();
        }
        TicTacToe { current_player: 0, last_board: 0, players: [0, 0], winner: None }
    }

    /// Updates the game with the occupied fields.
    pub fn tick(&mut self, occupied_fields: [[bool; N]; N])
        requires
            fits(occupied_fields),
            old(self).wf(),
        ensures
            final(self).wf(),
            exists|new_board: u32|
                board_word(occupied_fields, new_board) && final(self)@ == tick_spec(
                    old(self)@,
                    new_board,
                ),
    {
        let new_board = to_bit_board(occupied_fields);
        let ghost old_view = self@;
        if new_board == 0 && self.last_board != 0 {
            self.current_player = 0;
            self.last_board = 0;
            self.players = [0, 0];
            self.winner = None;
            proof {
                lemma_empty_stones();
            }
        }
        if self.winner.is_some() {
            return ;
        }
        if self.last_board >= new_board {
            return ;
        }
        let diff = only_different(new_board, self.last_board);
        let only_one = only_one_bit_set_to_one(diff);
        if !only_one {
            return ;
        }
        let ghost before = self@;
        proof {
            lemma_add_stone(before.player0, before.player1, before.last_board, new_board, diff);
        }
        let cur = self.current_player;
        if cur == 0 {
            self.players = [self.players[0] | diff, self.players[1]];
        } else {
            self.players = [self.players[0], self.players[1] | diff];
        }
        self.current_player = if self.current_player == 1 {
            0
        } else {
            1
        };
        self.last_board = new_board;
        self.check();
    }

    /// Sets the first player with a winning line as winner.
    fn check(&mut self)
        ensures
            final(self)@ == (TicTacToeView { winner: winner_after(old(self)@), ..old(self)@ }),
    {
        let masks: [u32; 8] = [
            0b00000111_00000000_00000000,
            0b00000000_00000111_00000000,
            0b00000000_00000000_00000111,
            0b00000100_00000100_00000100,
            0b00000010_00000010_00000010,
            0b00000001_00000001_00000001,
            0b00000100_00000010_00000001,
            0b00000001_00000010_00000100,
        ];
        let mut player_index: usize = 0;
        while player_index < 2
            invariant
                player_index <= 2,
                self@ == old(self)@,
                forall|i: int| 0 <= i < 8 ==> masks[i] == winning_mask(i),
                player_index >= 1 ==> !wins(self@.player0),
                player_index >= 2 ==> !wins(self@.player1),
            decreases 2 - player_index,
        {
            let player = self.players[player_index];
            let mut k: usize = 0;
            while k < 8
                invariant
                    k <= 8,
                    player_index < 2,
                    player == (if player_index == 0 { self@.player0 } else { self@.player1 }),
                    self@ == old(self)@,
                    forall|i: int| 0 <= i < 8 ==> masks[i] == winning_mask(i),
                    forall|i: int| 0 <= i < k ==> (player & winning_mask(i)) != winning_mask(i),
                    player_index >= 1 ==> !wins(self@.player0),
                decreases 8 - k,
            {
                let mask = masks[k];
                if player & mask == mask {
                    assert((player & winning_mask(k as int)) == winning_mask(k as int));
                    self.winner = Some(player_index);
                    return ;
                }
                k += 1;
            }
            player_index += 1;
        }
    }
}

proof fn lemma_empty_stones()
    ensures
        0u32 & 0u32 == 0,
        0u32 | 0u32 == 0,
{
    assert(0u32 & 0u32 == 0 && (0u32 | 0u32) == 0) by (bit_vector);
}

/// Adding the one new stone of `new_board` to either player keeps the stones apart and
/// makes the new board.
proof fn lemma_add_stone(p0: u32, p1: u32, last: u32, new_board: u32, diff: u32)
    requires
        p0 & p1 == 0,
        p0 | p1 == last,
        last < new_board,
        diff == new_board ^ last,
        single_bit(diff),
    ensures
        (p0 | diff) & p1 == 0,
        (p0 | diff) | p1 == new_board,
        p0 & (p1 | diff) == 0,
        p0 | (p1 | diff) == new_board,
{
    let k = choose|i: u32| i < 32 && diff == #[trigger] (1u32 << i);
    assert(k < 32 && diff == 1u32 << k && diff == new_board ^ last && last < new_board && p0 & p1
        == 0 && p0 | p1 == last ==> (p0 | diff) & p1 == 0 && (p0 | diff) | p1 == new_board && p0
        & (p1 | diff) == 0 && p0 | (p1 | diff) == new_board) by (bit_vector);
}

/// A finished game stays finished until the board is emptied.
pub proof fn law_winner_is_kept(v: TicTacToeView, new_board: u32)
    requires
        v.winner is Some,
        !(new_board == 0 && v.last_board != 0),
    ensures
        tick_spec(v, new_board) == v,
{
}

/// Emptying the board starts a new game.
pub proof fn law_empty_board_restarts(v: TicTacToeView)
    requires
        v.last_board != 0,
    ensures
        tick_spec(v, 0) == (TicTacToeView {
            player0: 0,
            player1: 0,
            current_player: 0,
            last_board: 0,
            winner: None,
        }),
{
}

/// A winner holds a winning line.
pub proof fn law_winner_has_a_line(v: TicTacToeView, new_board: u32)
    requires
        v.winner is None,
        v.last_board != 0 || new_board != 0,
    ensures
        tick_spec(v, new_board).winner matches Some(w) ==> (if w == 0 {
            wins(tick_spec(v, new_board).player0)
        } else {
            w == 1 && wins(tick_spec(v, new_board).player1)
        }),
{
}

/// Each tick keeps the stones of the players apart and together equal to the board.
pub proof fn law_stones_make_the_board(v: TicTacToeView, new_board: u32)
    requires
        consistent(v),
    ensures
        consistent(tick_spec(v, new_board)),
{
    let v1 = if new_board == 0 && v.last_board != 0 {
        TicTacToeView { player0: 0, player1: 0, current_player: 0, last_board: 0, winner: None }
    } else {
        v
    };
    lemma_empty_stones();
    let diff = new_board ^ v1.last_board;
    if !(v1.winner is Some || v1.last_board >= new_board || !single_bit(diff)) {
        lemma_add_stone(v1.player0, v1.player1, v1.last_board, new_board, diff);
    }
}

} // verus!

verus! {

/// The number of stones in a word (its set bits).
pub open spec fn stones(p: u32) -> nat
    decreases p,
{
    if p == 0 {
        0
    } else {
        (p % 2) as nat + stones(p / 2)
    }
}

/// The players take turns: player 0 has as many stones as player 1 while it is to move,
/// and one more while player 1 is to move.
pub open spec fn balanced(v: TicTacToeView) -> bool {
    stones(v.player0) == stones(v.player1) + v.current_player
}

/// A stone added on an empty field of a word counts once more.
proof fn lemma_add_one_stone(p: u32, k: u32)
    requires
        k < 32,
        p & (1u32 << k) == 0,
    ensures
        stones(p | (1u32 << k)) == stones(p) + 1,
    decreases k,
{
    let q = p | (1u32 << k);
    assert(k < 32 ==> q != 0) by (bit_vector)
        requires
            q == p | (1u32 << k),
    ;
    if k == 0 {
        assert(p & (1u32 << 0u32) == 0 && q == p | (1u32 << 0u32) ==> q % 2 == 1 && p % 2 == 0
            && q / 2 == p / 2) by (bit_vector);
    } else {
        let k1 = (k - 1) as u32;
        assert(0 < k < 32 && k1 == k - 1 && p & (1u32 << k) == 0 && q == p | (1u32 << k) ==> q % 2
            == p % 2 && q / 2 == (p / 2) | (1u32 << k1) && (p / 2) & (1u32 << k1) == 0)
            by (bit_vector);
        lemma_add_one_stone(p / 2, k1);
    }
}

/// Each tick keeps the turns of the players: the one to move has no more stones than the
/// other, as the game started.
pub proof fn law_players_take_turns(v: TicTacToeView, new_board: u32)
    requires
        consistent(v),
        balanced(v),
    ensures
        balanced(tick_spec(v, new_board)),
{
    let v1 = if new_board == 0 && v.last_board != 0 {
        TicTacToeView { player0: 0, player1: 0, current_player: 0, last_board: 0, winner: None }
    } else {
        v
    };
    lemma_empty_stones();
    let diff = new_board ^ v1.last_board;
    if !(v1.winner is Some || v1.last_board >= new_board || !single_bit(diff)) {
        let k = choose|i: u32| i < 32 && diff == #[trigger] (1u32 << i);
        let p0 = v1.player0;
        let p1 = v1.player1;
        let last = v1.last_board;
        assert(k < 32 && diff == 1u32 << k && diff == new_board ^ last && last < new_board && p0
            | p1 == last ==> p0 & (1u32 << k) == 0 && p1 & (1u32 << k) == 0) by (bit_vector);
        if v1.current_player == 0 {
            lemma_add_one_stone(p0, k);
        } else {
            lemma_add_one_stone(p1, k);
        }
    }
}

} // verus!

verus! {

/// The stones hold field (`row`, `column`) of the three-by-three board.
pub open spec fn holds_field(p: u32, row: int, column: int) -> bool {
    bit_of(p, cell_pos(3, row, column) as u32)
}

/// The stones hold the three fields from (`row`, `column`) in steps of (`dr`, `dc`).
pub open spec fn holds_line(p: u32, row: int, column: int, dr: int, dc: int) -> bool {
    holds_field(p, row, column) && holds_field(p, row + dr, column + dc) && holds_field(
        p,
        row + 2 * dr,
        column + 2 * dc,
    )
}

/// The stones hold three in a line: a row, a column or one of the two diagonals.
pub open spec fn three_in_a_line(p: u32) -> bool {
    ||| holds_line(p, 0, 0, 0, 1)
    ||| holds_line(p, 1, 0, 0, 1)
    ||| holds_line(p, 2, 0, 0, 1)
    ||| holds_line(p, 0, 0, 1, 0)
    ||| holds_line(p, 0, 1, 1, 0)
    ||| holds_line(p, 0, 2, 1, 0)
    ||| holds_line(p, 0, 0, 1, 1)
    ||| holds_line(p, 0, 2, 1, -1)
}

/// Three in a line is a winning line; no stones hold none.
proof fn lemma_lines_win(p: u32)
    ensures
        three_in_a_line(p) ==> wins(p),
        !three_in_a_line(0u32),
{
    assert(((p >> 18u32) & 1u32 == 1u32 && (p >> 17u32) & 1u32 == 1u32 && (p >> 16u32) & 1u32
        == 1u32) ==> p & 0b00000111_00000000_00000000u32 == 0b00000111_00000000_00000000u32)
        by (bit_vector);
    assert(((p >> 10u32) & 1u32 == 1u32 && (p >> 9u32) & 1u32 == 1u32 && (p >> 8u32) & 1u32
        == 1u32) ==> p & 0b00000000_00000111_00000000u32 == 0b00000000_00000111_00000000u32)
        by (bit_vector);
    assert(((p >> 2u32) & 1u32 == 1u32 && (p >> 1u32) & 1u32 == 1u32 && (p >> 0u32) & 1u32
        == 1u32) ==> p & 0b00000000_00000000_00000111u32 == 0b00000000_00000000_00000111u32)
        by (bit_vector);
    assert(((p >> 18u32) & 1u32 == 1u32 && (p >> 10u32) & 1u32 == 1u32 && (p >> 2u32) & 1u32
        == 1u32) ==> p & 0b00000100_00000100_00000100u32 == 0b00000100_00000100_00000100u32)
        by (bit_vector);
    assert(((p >> 17u32) & 1u32 == 1u32 && (p >> 9u32) & 1u32 == 1u32 && (p >> 1u32) & 1u32
        == 1u32) ==> p & 0b00000010_00000010_00000010u32 == 0b00000010_00000010_00000010u32)
        by (bit_vector);
    assert(((p >> 16u32) & 1u32 == 1u32 && (p >> 8u32) & 1u32 == 1u32 && (p >> 0u32) & 1u32
        == 1u32) ==> p & 0b00000001_00000001_00000001u32 == 0b00000001_00000001_00000001u32)
        by (bit_vector);
    assert(((p >> 18u32) & 1u32 == 1u32 && (p >> 9u32) & 1u32 == 1u32 && (p >> 0u32) & 1u32
        == 1u32) ==> p & 0b00000100_00000010_00000001u32 == 0b00000100_00000010_00000001u32)
        by (bit_vector);
    assert(((p >> 16u32) & 1u32 == 1u32 && (p >> 9u32) & 1u32 == 1u32 && (p >> 2u32) & 1u32
        == 1u32) ==> p & 0b00000001_00000010_00000100u32 == 0b00000001_00000010_00000100u32)
        by (bit_vector);
    assert((0u32 >> 18u32) & 1u32 != 1u32 && (0u32 >> 10u32) & 1u32 != 1u32 && (0u32 >> 2u32)
        & 1u32 != 1u32 && (0u32 >> 16u32) & 1u32 != 1u32 && (0u32 >> 17u32) & 1u32 != 1u32)
        by (bit_vector);
    if three_in_a_line(p) {
        if holds_line(p, 0, 0, 0, 1) {
            assert(p & winning_mask(0) == winning_mask(0));
        } else if holds_line(p, 1, 0, 0, 1) {
            assert(p & winning_mask(1) == winning_mask(1));
        } else if holds_line(p, 2, 0, 0, 1) {
            assert(p & winning_mask(2) == winning_mask(2));
        } else if holds_line(p, 0, 0, 1, 0) {
            assert(p & winning_mask(3) == winning_mask(3));
        } else if holds_line(p, 0, 1, 1, 0) {
            assert(p & winning_mask(4) == winning_mask(4));
        } else if holds_line(p, 0, 2, 1, 0) {
            assert(p & winning_mask(5) == winning_mask(5));
        } else if holds_line(p, 0, 0, 1, 1) {
            assert(p & winning_mask(6) == winning_mask(6));
        } else {
            assert(p & winning_mask(7) == winning_mask(7));
        }
    }
}

/// Three in a line wins: once a tick is over, a player holding any row, column or
/// diagonal of three is the winner, or there already was one (a game that starts without
/// such a line unnoticed keeps it so).
pub proof fn law_three_in_a_line_wins(v: TicTacToeView, new_board: u32)
    requires
        (three_in_a_line(v.player0) || three_in_a_line(v.player1)) ==> v.winner is Some,
    ensures
        ({
            let w = tick_spec(v, new_board);
            (three_in_a_line(w.player0) || three_in_a_line(w.player1)) ==> w.winner is Some
        }),
{
    let w = tick_spec(v, new_board);
    lemma_lines_win(w.player0);
    lemma_lines_win(w.player1);
    lemma_lines_win(0u32);
}

} // verus!
