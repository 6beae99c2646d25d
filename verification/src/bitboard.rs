use vstd::prelude::*;

verus! {

/// Bit `pos` of `data` (bit 0 is the least significant one).
pub open spec fn bit_of(data: u32, pos: u32) -> bool {
    (data >> pos) & 1u32 == 1u32
}

/// Exactly one bit of `x` is set.
pub open spec fn single_bit(x: u32) -> bool {
    exists|i: u32| i < 32 && x == #[trigger] (1u32 << i)
}

proof fn lemma_single_bit_cases(x: u32)
    ensures
        (x != 0 && x & ((x - 1) as u32) == 0) <==> (
        x == 1u32 << 0u32 ||
        x == 1u32 << 1u32 ||
        x == 1u32 << 2u32 ||
        x == 1u32 << 3u32 ||
        x == 1u32 << 4u32 ||
        x == 1u32 << 5u32 ||
        x == 1u32 << 6u32 ||
        x == 1u32 << 7u32 ||
        x == 1u32 << 8u32 ||
        x == 1u32 << 9u32 ||
        x == 1u32 << 10u32 ||
        x == 1u32 << 11u32 ||
        x == 1u32 << 12u32 ||
        x == 1u32 << 13u32 ||
        x == 1u32 << 14u32 ||
        x == 1u32 << 15u32 ||
        x == 1u32 << 16u32 ||
        x == 1u32 << 17u32 ||
        x == 1u32 << 18u32 ||
        x == 1u32 << 19u32 ||
        x == 1u32 << 20u32 ||
        x == 1u32 << 21u32 ||
        x == 1u32 << 22u32 ||
        x == 1u32 << 23u32 ||
        x == 1u32 << 24u32 ||
        x == 1u32 << 25u32 ||
        x == 1u32 << 26u32 ||
        x == 1u32 << 27u32 ||
        x == 1u32 << 28u32 ||
        x == 1u32 << 29u32 ||
        x == 1u32 << 30u32 ||
        x == 1u32 << 31u32),
{
    assert((x != 0 && x & ((x - 1) as u32) == 0) <==> (
        x == 1u32 << 0u32 ||
        x == 1u32 << 1u32 ||
        x == 1u32 << 2u32 ||
        x == 1u32 << 3u32 ||
        x == 1u32 << 4u32 ||
        x == 1u32 << 5u32 ||
        x == 1u32 << 6u32 ||
        x == 1u32 << 7u32 ||
        x == 1u32 << 8u32 ||
        x == 1u32 << 9u32 ||
        x == 1u32 << 10u32 ||
        x == 1u32 << 11u32 ||
        x == 1u32 << 12u32 ||
        x == 1u32 << 13u32 ||
        x == 1u32 << 14u32 ||
        x == 1u32 << 15u32 ||
        x == 1u32 << 16u32 ||
        x == 1u32 << 17u32 ||
        x == 1u32 << 18u32 ||
        x == 1u32 << 19u32 ||
        x == 1u32 << 20u32 ||
        x == 1u32 << 21u32 ||
        x == 1u32 << 22u32 ||
        x == 1u32 << 23u32 ||
        x == 1u32 << 24u32 ||
        x == 1u32 << 25u32 ||
        x == 1u32 << 26u32 ||
        x == 1u32 << 27u32 ||
        x == 1u32 << 28u32 ||
        x == 1u32 << 29u32 ||
        x == 1u32 << 30u32 ||
        x == 1u32 << 31u32)) by (bit_vector);
}

proof fn lemma_shift_one(i: u32)
    requires
        i < 32,
    ensures
        (1u32 << i) != 0,
        (1u32 << i) & (((1u32 << i) - 1) as u32) == 0,
{
    assert(i < 32 ==> (1u32 << i) != 0 && (1u32 << i) & (((1u32 << i) - 1) as u32) == 0)
        by (bit_vector);
}

/// A word has exactly one bit set iff it is non-zero and clearing its lowest set bit
/// leaves nothing.
pub proof fn lemma_single_bit(x: u32)
    ensures
        single_bit(x) <==> (x != 0 && x & ((x - 1) as u32) == 0),
{
    lemma_single_bit_cases(x);
    if single_bit(x) {
        let i = choose|i: u32| i < 32 && x == #[trigger] (1u32 << i);
        lemma_shift_one(i);
    }
}

/// True iff exactly one bit of `bitboard` is set.
pub fn only_one_bit_set_to_one(bitboard: u32) -> (r: bool)
    ensures
        r == single_bit(bitboard),
{
    proof {
        lemma_single_bit(bitboard);
    }
    bitboard != 0 && (bitboard & (bitboard - 1)) == 0
}

/// The bits in which `data1` and `data2` differ.
pub fn only_different(data1: u32, data2: u32) -> (r: u32)
    ensures
        r == data1 ^ data2,
        forall|i: u32| i < 32 ==> (bit_of(r, i) <==> bit_of(data1, i) != bit_of(data2, i)),
{
    let r = data1 ^ data2;
    assert forall|i: u32| i < 32 implies (bit_of(r, i) <==> bit_of(data1, i) != bit_of(data2, i)) by {
        assert(i < 32 && r == data1 ^ data2 ==> (((r >> i) & 1u32 == 1u32) <==> (((data1 >> i)
            & 1u32 == 1u32) != ((data2 >> i) & 1u32 == 1u32)))) by (bit_vector);
    }
    r
}

/// `data` with bit `bit_position` set; every other bit is kept.
pub fn set_bit(data: u32, bit_position: usize) -> (r: u32)
    requires
        bit_position < 32,
    ensures
        r == data | (1u32 << bit_position as u32),
        bit_of(r, bit_position as u32),
        forall|i: u32| i < 32 && i != bit_position ==> (bit_of(r, i) <==> bit_of(data, i)),
{
    let p = bit_position as u32;
    let r = data | (1u32 << p);
    assert(p < 32 ==> ((data | (1u32 << p)) >> p) & 1u32 == 1u32) by (bit_vector);
    assert forall|i: u32| i < 32 && i != p implies (bit_of(r, i) <==> bit_of(data, i)) by {
        assert(i < 32 && p < 32 && i != p ==> ((((data | (1u32 << p)) >> i) & 1u32 == 1u32) <==> ((
            data >> i) & 1u32 == 1u32))) by (bit_vector);
    }
    r
}

/// Whether bit `pos` of `data` is set.
pub fn get(data: u32, pos: usize) -> (r: bool)
    requires
        pos < 32,
    ensures
        r == bit_of(data, pos as u32),
{
    let p = pos as u32;
    let mask = 1u32 << p;
    assert(p < 32 ==> ((data & (1u32 << p)) != 0 <==> (data >> p) & 1u32 == 1u32)) by (bit_vector);
    (data & mask) != 0
}

} // verus!
