//! A set of squares as a 64-bit word (the `chess` crate's `BitBoard`): bit `i` stands
//! for square `i`.
use vstd::prelude::*;
use vstd::std_specs::bits::{axiom_u64_trailing_zeros, u64_trailing_zeros};

verus! {

/// Square `sq` is in `b`.
pub open spec fn bit_at(b: u64, sq: u64) -> bool {
    (b >> sq) & 1u64 == 1u64
}

/// Exactly one bit of `x` is set.
pub open spec fn single_square(x: u64) -> bool {
    exists|i: u64| i < 64 && x == #[trigger] (1u64 << i)
}

proof fn lemma_single_square_cases(x: u64)
    ensures
        (x != 0 && x & ((x - 1) as u64) == 0) <==> (
        x == 1u64 << 0u64 ||
        x == 1u64 << 1u64 ||
        x == 1u64 << 2u64 ||
        x == 1u64 << 3u64 ||
        x == 1u64 << 4u64 ||
        x == 1u64 << 5u64 ||
        x == 1u64 << 6u64 ||
        x == 1u64 << 7u64 ||
        x == 1u64 << 8u64 ||
        x == 1u64 << 9u64 ||
        x == 1u64 << 10u64 ||
        x == 1u64 << 11u64 ||
        x == 1u64 << 12u64 ||
        x == 1u64 << 13u64 ||
        x == 1u64 << 14u64 ||
        x == 1u64 << 15u64 ||
        x == 1u64 << 16u64 ||
        x == 1u64 << 17u64 ||
        x == 1u64 << 18u64 ||
        x == 1u64 << 19u64 ||
        x == 1u64 << 20u64 ||
        x == 1u64 << 21u64 ||
        x == 1u64 << 22u64 ||
        x == 1u64 << 23u64 ||
        x == 1u64 << 24u64 ||
        x == 1u64 << 25u64 ||
        x == 1u64 << 26u64 ||
        x == 1u64 << 27u64 ||
        x == 1u64 << 28u64 ||
        x == 1u64 << 29u64 ||
        x == 1u64 << 30u64 ||
        x == 1u64 << 31u64 ||
        x == 1u64 << 32u64 ||
        x == 1u64 << 33u64 ||
        x == 1u64 << 34u64 ||
        x == 1u64 << 35u64 ||
        x == 1u64 << 36u64 ||
        x == 1u64 << 37u64 ||
        x == 1u64 << 38u64 ||
        x == 1u64 << 39u64 ||
        x == 1u64 << 40u64 ||
        x == 1u64 << 41u64 ||
        x == 1u64 << 42u64 ||
        x == 1u64 << 43u64 ||
        x == 1u64 << 44u64 ||
        x == 1u64 << 45u64 ||
        x == 1u64 << 46u64 ||
        x == 1u64 << 47u64 ||
        x == 1u64 << 48u64 ||
        x == 1u64 << 49u64 ||
        x == 1u64 << 50u64 ||
        x == 1u64 << 51u64 ||
        x == 1u64 << 52u64 ||
        x == 1u64 << 53u64 ||
        x == 1u64 << 54u64 ||
        x == 1u64 << 55u64 ||
        x == 1u64 << 56u64 ||
        x == 1u64 << 57u64 ||
        x == 1u64 << 58u64 ||
        x == 1u64 << 59u64 ||
        x == 1u64 << 60u64 ||
        x == 1u64 << 61u64 ||
        x == 1u64 << 62u64 ||
        x == 1u64 << 63u64),
{
    assert((x != 0 && x & ((x - 1) as u64) == 0) <==> (
        x == 1u64 << 0u64 ||
        x == 1u64 << 1u64 ||
        x == 1u64 << 2u64 ||
        x == 1u64 << 3u64 ||
        x == 1u64 << 4u64 ||
        x == 1u64 << 5u64 ||
        x == 1u64 << 6u64 ||
        x == 1u64 << 7u64 ||
        x == 1u64 << 8u64 ||
        x == 1u64 << 9u64 ||
        x == 1u64 << 10u64 ||
        x == 1u64 << 11u64 ||
        x == 1u64 << 12u64 ||
        x == 1u64 << 13u64 ||
        x == 1u64 << 14u64 ||
        x == 1u64 << 15u64 ||
        x == 1u64 << 16u64 ||
        x == 1u64 << 17u64 ||
        x == 1u64 << 18u64 ||
        x == 1u64 << 19u64 ||
        x == 1u64 << 20u64 ||
        x == 1u64 << 21u64 ||
        x == 1u64 << 22u64 ||
        x == 1u64 << 23u64 ||
        x == 1u64 << 24u64 ||
        x == 1u64 << 25u64 ||
        x == 1u64 << 26u64 ||
        x == 1u64 << 27u64 ||
        x == 1u64 << 28u64 ||
        x == 1u64 << 29u64 ||
        x == 1u64 << 30u64 ||
        x == 1u64 << 31u64 ||
        x == 1u64 << 32u64 ||
        x == 1u64 << 33u64 ||
        x == 1u64 << 34u64 ||
        x == 1u64 << 35u64 ||
        x == 1u64 << 36u64 ||
        x == 1u64 << 37u64 ||
        x == 1u64 << 38u64 ||
        x == 1u64 << 39u64 ||
        x == 1u64 << 40u64 ||
        x == 1u64 << 41u64 ||
        x == 1u64 << 42u64 ||
        x == 1u64 << 43u64 ||
        x == 1u64 << 44u64 ||
        x == 1u64 << 45u64 ||
        x == 1u64 << 46u64 ||
        x == 1u64 << 47u64 ||
        x == 1u64 << 48u64 ||
        x == 1u64 << 49u64 ||
        x == 1u64 << 50u64 ||
        x == 1u64 << 51u64 ||
        x == 1u64 << 52u64 ||
        x == 1u64 << 53u64 ||
        x == 1u64 << 54u64 ||
        x == 1u64 << 55u64 ||
        x == 1u64 << 56u64 ||
        x == 1u64 << 57u64 ||
        x == 1u64 << 58u64 ||
        x == 1u64 << 59u64 ||
        x == 1u64 << 60u64 ||
        x == 1u64 << 61u64 ||
        x == 1u64 << 62u64 ||
        x == 1u64 << 63u64)) by (bit_vector);
}

/// Facts about a one-square word `1 << i`: it is non-zero, its lowest bit is bit `i`,
/// clearing it leaves nothing, it holds square `i` and no other.
pub proof fn lemma_square_word(i: u64)
    requires
        i < 64,
    ensures
        (1u64 << i) != 0,
        (1u64 << i) & (((1u64 << i) - 1) as u64) == 0,
        bit_at(1u64 << i, i),
        forall|j: u64| j < 64 && j != i ==> !#[trigger] bit_at(1u64 << i, j),
{
    assert(i < 64 ==> (1u64 << i) != 0 && (1u64 << i) & (((1u64 << i) - 1) as u64) == 0 && ((1u64
        << i) >> i) & 1u64 == 1u64) by (bit_vector);
    assert forall|j: u64| j < 64 && j != i implies !#[trigger] bit_at(1u64 << i, j) by {
        assert(i < 64 && j < 64 && j != i ==> ((1u64 << i) >> j) & 1u64 != 1u64) by (bit_vector);
    }
}

/// The empty set holds no square.
pub proof fn lemma_no_square(d: u64)
    ensures
        !bit_at(0u64, d),
{
    assert((0u64 >> d) & 1u64 != 1u64) by (bit_vector);
}

/// A word has exactly one bit set iff it is non-zero and clearing its lowest set bit
/// leaves nothing.
pub proof fn lemma_single_square(x: u64)
    ensures
        single_square(x) <==> (x != 0 && x & ((x - 1) as u64) == 0),
{
    lemma_single_square_cases(x);
    if single_square(x) {
        let i = choose|i: u64| i < 64 && x == #[trigger] (1u64 << i);
        lemma_square_word(i);
    }
}

/// The lowest set bit of a one-bit word is its only bit.
pub proof fn lemma_single_square_index(x: u64)
    requires
        single_square(x),
    ensures
        u64_trailing_zeros(x) < 64,
        x == 1u64 << (u64_trailing_zeros(x) as u64),
{
    let i = choose|i: u64| i < 64 && x == #[trigger] (1u64 << i);
    lemma_square_word(i);
    axiom_u64_trailing_zeros(x);
    let t = u64_trailing_zeros(x) as u64;
    if t != i {
        if t < i {
            assert(!bit_at(x, t));
        } else {
            assert(bit_at(x, i));
            assert((x >> i) & 1u64 == 0u64);
        }
    }
}

/// Bitwise facts of xor, or and and at one square.
pub proof fn lemma_bit_ops(a: u64, b: u64, j: u64)
    requires
        j < 64,
    ensures
        bit_at(a ^ b, j) <==> bit_at(a, j) != bit_at(b, j),
        bit_at(a | b, j) <==> bit_at(a, j) || bit_at(b, j),
        bit_at(a & b, j) <==> bit_at(a, j) && bit_at(b, j),
        bit_at(a & !b, j) <==> bit_at(a, j) && !bit_at(b, j),
{
    assert(j < 64 ==> ((((a ^ b) >> j) & 1u64 == 1u64) <==> (((a >> j) & 1u64 == 1u64) != ((b
        >> j) & 1u64 == 1u64))) && ((((a | b) >> j) & 1u64 == 1u64) <==> (((a >> j) & 1u64
        == 1u64) || ((b >> j) & 1u64 == 1u64))) && ((((a & b) >> j) & 1u64 == 1u64) <==> (((a
        >> j) & 1u64 == 1u64) && ((b >> j) & 1u64 == 1u64))) && ((((a & !b) >> j) & 1u64
        == 1u64) <==> (((a >> j) & 1u64 == 1u64) && !((b >> j) & 1u64 == 1u64))))
        by (bit_vector);
}

/// Two words that differ in exactly the square `k`: the one holding `k` is the larger.
pub proof fn lemma_one_square_apart(e: u64, k: u64)
    requires
        k < 64,
    ensures
        (e ^ (1u64 << k)) != e,
        (e ^ (1u64 << k)) > e <==> !bit_at(e, k),
        (e ^ (1u64 << k)) ^ e == (1u64 << k),
        e ^ (e ^ (1u64 << k)) == (1u64 << k),
{
    assert(k < 64 ==> (e ^ (1u64 << k)) != e && (((e ^ (1u64 << k)) > e) <==> !((e >> k) & 1u64
        == 1u64)) && (e ^ (1u64 << k)) ^ e == (1u64 << k) && e ^ (e ^ (1u64 << k)) == (1u64
        << k)) by (bit_vector);
}

/// A set of squares.
#[derive(Clone, Copy, PartialEq, Eq, Structural, Debug)]
pub struct BitBoard(pub u64);

impl BitBoard {
    /// Square `sq` is in the set.
    pub open spec fn holds(self, sq: u64) -> bool {
        bit_at(self.0, sq)
    }

    pub fn new(b: u64) -> (r: BitBoard)
        ensures
            r.0 == b,
    {
        BitBoard(b)
    }

    /// The set holding only square `sq`.
    pub fn from_square(sq: u8) -> (r: BitBoard)
        requires
            sq < 64,
        ensures
            r.0 == 1u64 << (sq as u64),
            r.holds(sq as u64),
            forall|j: u64| j < 64 && j != sq ==> !r.holds(j),
            single_square(r.0),
    {
        proof {
            lemma_square_word(sq as u64);
        }
        BitBoard(1u64 << (sq as u64))
    }

    /// Whether square `sq` is in the set.
    pub fn contains(&self, sq: u8) -> (r: bool)
        requires
            sq < 64,
        ensures
            r == self.holds(sq as u64),
    {
        let s = sq as u64;
        let b = self.0;
        assert(s < 64 ==> (((b >> s) & 1u64) != 0 <==> (b >> s) & 1u64 == 1u64)) by (bit_vector);
        ((self.0 >> s) & 1) != 0
    }

    /// Union.
    pub fn or(self, other: BitBoard) -> (r: BitBoard)
        ensures
            r.0 == self.0 | other.0,
    {
        BitBoard(self.0 | other.0)
    }

    /// Squares in exactly one of the sets.
    pub fn xor(self, other: BitBoard) -> (r: BitBoard)
        ensures
            r.0 == self.0 ^ other.0,
    {
        BitBoard(self.0 ^ other.0)
    }

    /// Intersection.
    pub fn and(self, other: BitBoard) -> (r: BitBoard)
        ensures
            r.0 == self.0 & other.0,
    {
        BitBoard(self.0 & other.0)
    }

    /// Squares of `self` not in `other`.
    pub fn without(self, other: BitBoard) -> (r: BitBoard)
        ensures
            r.0 == self.0 & !other.0,
    {
        BitBoard(self.0 & !other.0)
    }
}

/// Queries on bitboards.
pub trait BitBoardExtensions: Sized {
    spec fn bits(&self) -> u64;

    /// Exactly one square is set.
    fn only_one_bit_set_to_one(self) -> (r: bool)
        ensures
            r == single_square(self.bits()),
    ;

    /// The squares in which `self` and `other` differ.
    fn get_different_bits(self, other: BitBoard) -> (r: BitBoard)
        ensures
            r.0 == self.bits() ^ other.0,
    ;

    /// The lowest set square (64 for the empty set).
    fn first_one(&self) -> (r: u8)
        ensures
            r as u32 == u64_trailing_zeros(self.bits()),
            single_square(self.bits()) ==> r < 64 && self.bits() == 1u64 << (r as u64),
    ;
}

impl BitBoardExtensions for BitBoard {
    open spec fn bits(&self) -> u64 {
        self.0
    }

    fn only_one_bit_set_to_one(self) -> (r: bool) {
        proof {
            lemma_single_square(self.0);
        }
        self.0 != 0 && (self.0 & (self.0 - 1)) == 0
    }

    fn get_different_bits(self, other: BitBoard) -> (r: BitBoard) {
        BitBoard(self.0 ^ other.0)
    }

    fn first_one(&self) -> (r: u8) {
        proof {
            axiom_u64_trailing_zeros(self.0);
            if single_square(self.0) {
                lemma_single_square_index(self.0);
            }
        }
        self.0.trailing_zeros() as u8
    }
}

} // verus!

verus! {

/// The cells of the first `n` files of `rank`: ` 1` for a set square, ` 0` otherwise.
pub open spec fn bit_cells(b: u64, rank: int, n: int) -> Seq<char>
    decreases n,
{
    if n <= 0 {
        Seq::empty()
    } else {
        bit_cells(b, rank, n - 1) + seq![' ', if bit_at(b, (rank * 8 + n - 1) as u64) { '1' } else { '0' }]
    }
}

/// The lines of the `k` highest ranks, from rank 8 down.
pub open spec fn bit_rows(b: u64, k: int) -> Seq<char>
    decreases k,
{
    if k <= 0 {
        Seq::empty()
    } else {
        bit_rows(b, k - 1) + seq![crate::text::digit(8 - k + 1), ' '] + bit_cells(b, 8 - k, 8) + seq!['\n']
    }
}

/// The picture of a set of squares, rank 8 first, with file letters above and below.
pub open spec fn bits_picture(b: u64) -> Seq<char> {
    "\n   a b c d e f g h\n"@ + "  ---------------\n"@ + bit_rows(b, 8) + "  ---------------\n"@
        + "   a b c d e f g h\n"@
}

/// The picture of a set of squares.
pub fn board_text(b: BitBoard) -> (r: String)
    ensures
        r@ == bits_picture(b.0),
{
    let mut v: Vec<char> = Vec::new();
    crate::text::push_text(&mut v, "\n   a b c d e f g h\n");
    crate::text::push_text(&mut v, "  ---------------\n");
    let ghost head = v@;
    let mut k: u8 = 0;
    while k < 8
        invariant
            k <= 8,
            v@ == head + bit_rows(b.0, k as int),
        decreases 8 - k,
    {
        let rank: u8 = 7 - k;
        let ghost row_start = v@;
        v.push(crate::text::digit_char(rank + 1));
        v.push(' ');
        let ghost cells_start = v@;
        let mut file: u8 = 0;
        while file < 8
            invariant
                file <= 8,
                rank < 8,
                v@ == cells_start + bit_cells(b.0, rank as int, file as int),
            decreases 8 - file,
        {
            v.push(' ');
            if b.contains(rank * 8 + file) {
                v.push('1');
            } else {
                v.push('0');
            }
            file += 1;
            assert(v@ =~= cells_start + bit_cells(b.0, rank as int, file as int));
        }
        v.push('\n');
        k += 1;
        assert(v@ =~= head + bit_rows(b.0, k as int));
    }
    crate::text::push_text(&mut v, "  ---------------\n");
    crate::text::push_text(&mut v, "   a b c d e f g h\n");
    crate::text::string_of(v.as_slice())
}

} // verus!
