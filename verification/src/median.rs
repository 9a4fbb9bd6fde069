use vstd::prelude::*;

use crate::sort::lemma_sorted_bits_permutation;
use crate::sort::sorted_bits;
use crate::sort::sorted_copy;

verus! {

/// What the median reads out of a sample: nothing when the sample is
/// empty, the single middle pattern when its length is odd, and the two
/// middle patterns — lower one first — when its length is even. Averaging
/// the two middle values is a floating-point step and is the caller's.
#[derive(Clone, Copy, Debug, PartialEq, Eq, Structural)]
pub enum Pick {
    Empty,
    One(u64),
    Two(u64, u64),
}

/// The middle of the sample once sorted: for an odd length the element at
/// index `(len - 1) / 2` of the sorted copy, for an even length the
/// elements at indices `len / 2 - 1` and `len / 2`.
pub open spec fn median_pick_spec(s: Seq<u64>) -> Pick {
    let t = sorted_bits(s);
    if s.len() == 0 {
        Pick::Empty
    } else if s.len() % 2 == 1 {
        Pick::One(t[(s.len() - 1) as int / 2])
    } else {
        Pick::Two(t[s.len() as int / 2 - 1], t[s.len() as int / 2])
    }
}

/// Reads the median's middle pattern(s) from a sample. The sample itself
/// is only read; the sorting happens on a private copy.
pub fn median_pick(xs: &Vec<u64>) -> (r: Pick)
    ensures
        r == median_pick_spec(xs@),
{
    let n = xs.len();
    if n == 0 {
        Pick::Empty
    } else {
        let t = sorted_copy(xs);
        if n % 2 == 1 {
            Pick::One(t[(n - 1) / 2])
        } else {
            Pick::Two(t[n / 2 - 1], t[n / 2])
        }
    }
}

/// The median's pick is a function of the sample's multiset of patterns
/// alone, hence invariant under reordering of the sample.
pub proof fn lemma_median_pick_permutation(a: Seq<u64>, b: Seq<u64>)
    requires
        a.to_multiset() == b.to_multiset(),
    ensures
        median_pick_spec(a) == median_pick_spec(b),
{
    vstd::seq_lib::to_multiset_len(a);
    vstd::seq_lib::to_multiset_len(b);
    lemma_sorted_bits_permutation(a, b);
    assert(a.len() == b.len());
}

/// There is no hidden state: the pick is a spec-level function of the
/// sample alone, so two calls of `median_pick` on equal samples return
/// equal results — as every function here does, each being pinned by its
/// contract to a spec-level function of its inputs.
pub proof fn lemma_median_pick_deterministic(a: Seq<u64>, b: Seq<u64>)
    requires
        a == b,
    ensures
        median_pick_spec(a) == median_pick_spec(b),
{
}

} // verus!
