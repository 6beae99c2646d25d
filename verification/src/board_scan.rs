//! Reading the physical board. The board is a matrix of reed switches behind an I/O
//! expander: one column at a time is driven low, and the byte read back has a low bit for
//! each square of that column that holds a piece. The I2C transfers are done by the
//! firmware; this module holds what is written and how the bytes read become a board.
use vstd::prelude::*;
use crate::bitboard_extensions::{bit_at, lemma_bit_ops, lemma_no_square, BitBoard};

verus! {

/// The columns (files) of the board.
pub const BOARD_SIZE: usize = 8;

/// The output byte that drives column `col` low and the others high.
pub fn column_select(col: u8) -> (r: u8)
    requires
        col < 8,
    ensures
        forall|k: u8| k < 8 ==> ((#[trigger] ((r >> k) & 1u8) == 0u8) <==> k == col),
{
    let r: u8 = !(1u8 << col);
    proof {
        lemma_select(col, r);
    }
    r
}

proof fn lemma_select(col: u8, r: u8)
    by (bit_vector)
    requires
        col < 8,
        r == !(1u8 << col),
    ensures
        forall|k: u8| k < 8 ==> ((#[trigger] ((r >> k) & 1u8) == 0u8) <==> k == col),
{
}

/// The square `8 * k + col` (rank `k`, file `col`) holds a piece: bit `k` of the byte
/// read from column `col` is low.
pub open spec fn occupied(raw: u8, k: u64) -> bool {
    (raw >> k) & 1u8 == 0u8
}

proof fn lemma_spread(raw: u8, c: u64, spread: u64, col: u64)
    by (bit_vector)
    requires
        col < 8,
        c == (!raw) as u64,
        spread == (c & 1u64) | ((c & 2u64) << 7u64) | ((c & 4u64) << 14u64) | ((c & 8u64) << 21u64)
            | ((c & 16u64) << 28u64) | ((c & 32u64) << 35u64) | ((c & 64u64) << 42u64) | ((c
            & 128u64) << 49u64),
    ensures
        forall|k: u64, f: u64|
            k < 8 && f < 8 ==> ((#[trigger] (((spread << col) >> ((8 * k + f) as u64)) & 1u64)
                == 1u64) <==> (f == col && (raw >> k) & 1u8 == 0u8)),
{
}

/// The squares of column `col` that hold a piece, from the byte read from it.
pub fn column_squares(raw: u8, col: u8) -> (r: u64)
    requires
        col < 8,
    ensures
        forall|k: u64, f: u64|
            k < 8 && f < 8 ==> (bit_at(r, #[trigger] ((8 * k + f) as u64)) <==> (f == col as u64
                && occupied(raw, k))),
{
    let c: u64 = (!raw) as u64;
    let spread: u64 = (c & 1u64) | ((c & 2u64) << 7u64) | ((c & 4u64) << 14u64) | ((c & 8u64) << 21u64)
        | ((c & 16u64) << 28u64) | ((c & 32u64) << 35u64) | ((c & 64u64) << 42u64) | ((c & 128u64)
        << 49u64);
    proof {
        lemma_spread(raw, c, spread, col as u64);
    }
    spread << (col as u64)
}

/// The board from the bytes read from its columns, column `a` first: square `8 * k + f`
/// holds a piece when bit `k` of the byte of column `f` is low.
pub fn read_board(columns: &[u8; 8]) -> (r: BitBoard)
    ensures
        forall|k: u64, f: u64|
            k < 8 && f < 8 ==> (bit_at(r.0, #[trigger] ((8 * k + f) as u64)) <==> occupied(
                columns@[f as int],
                k,
            )),
{
    let mut board: u64 = 0;
    let mut col: u8 = 0;
    assert forall|k: u64, f: u64| k < 8 && f < 8 implies !bit_at(0u64, #[trigger] ((8 * k + f) as u64)) by {
        lemma_no_square((8 * k + f) as u64);
    }
    while col < 8
        invariant
            col <= 8,
            forall|k: u64, f: u64|
                k < 8 && f < 8 ==> (bit_at(board, #[trigger] ((8 * k + f) as u64)) <==> (f < col
                    && occupied(columns@[f as int], k))),
        decreases 8 - col,
    {
        let bits = column_squares(columns[col as usize], col);
        let next = board | bits;
        assert forall|k: u64, f: u64| k < 8 && f < 8 implies (bit_at(next, #[trigger] ((8 * k + f) as u64))
            <==> (f < col + 1 && occupied(columns@[f as int], k))) by {
            lemma_bit_ops(board, bits, (8 * k + f) as u64);
        }
        board = next;
        col += 1;
    }
    BitBoard(board)
}

} // verus!
