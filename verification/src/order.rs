use vstd::prelude::*;
use vstd::relations::total_ordering;

verus! {

/// Whether an IEEE-754 binary64 bit pattern has its sign bit set, that is,
/// encodes a negative value (or a negative zero or NaN pattern).
pub open spec fn sign_bit(a: u64) -> bool {
    a >= 0x8000_0000_0000_0000
}

/// Total order on IEEE-754 binary64 bit patterns, ascending by encoded
/// value. Patterns with the sign bit set come first, by descending
/// magnitude bits; patterns with the sign bit clear follow, by ascending
/// magnitude bits. On patterns of numbers this agrees with the numeric
/// order of the encoded values; it additionally orders the two zeros
/// (negative zero first) and places NaN patterns below negative infinity
/// or above positive infinity instead of leaving them unordered.
pub open spec fn le_bits(a: u64, b: u64) -> bool {
    if sign_bit(a) == sign_bit(b) {
        if sign_bit(a) {
            b <= a
        } else {
            a <= b
        }
    } else {
        sign_bit(a)
    }
}

/// `le_bits` as a relation value, for the sorting specifications.
pub open spec fn bit_le() -> spec_fn(u64, u64) -> bool {
    |a: u64, b: u64| le_bits(a, b)
}

/// `le_bits` is reflexive, antisymmetric, transitive and strongly
/// connected: a total order, under which a sample has exactly one sorted
/// arrangement of its patterns.
pub proof fn lemma_bit_le_total_ordering()
    ensures
        total_ordering(bit_le()),
{
    let r = bit_le();
    assert forall|x: u64| #[trigger] r(x, x) by {}
    assert forall|x: u64, y: u64| #[trigger] r(x, y) && #[trigger] r(y, x) implies x == y by {}
    assert forall|x: u64, y: u64, z: u64|
        #[trigger] r(x, y) && #[trigger] r(y, z) implies r(x, z) by {}
    assert forall|x: u64, y: u64| !(#[trigger] r(x, y)) implies r(y, x) by {}
}

/// Decides `le_bits` on two bit patterns.
pub fn le_bits_exec(a: u64, b: u64) -> (r: bool)
    ensures
        r == le_bits(a, b),
{
    let a_neg = a >= 0x8000_0000_0000_0000;
    let b_neg = b >= 0x8000_0000_0000_0000;
    if a_neg == b_neg {
        if a_neg {
            b <= a
        } else {
            a <= b
        }
    } else {
        a_neg
    }
}

} // verus!
