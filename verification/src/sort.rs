use vstd::prelude::*;
use vstd::relations::sorted_by;
use vstd::seq_lib::group_to_multiset_ensures;
use vstd::seq_lib::lemma_sorted_unique;

use crate::order::bit_le;
use crate::order::le_bits;
use crate::order::le_bits_exec;
use crate::order::lemma_bit_le_total_ordering;

verus! {

/// The sample's bit patterns rearranged into ascending `le_bits` order.
/// Since `le_bits` is a total order, this is the one sorted arrangement of
/// the sample's multiset of patterns.
pub open spec fn sorted_bits(s: Seq<u64>) -> Seq<u64> {
    s.sort_by(bit_le())
}

/// Position at which `x` joins the sorted `r` without disturbing the
/// order: every pattern before it stays `le_bits`-below `x`, and the
/// pattern at the position (if any) is strictly above `x`.
fn insertion_point(r: &Vec<u64>, x: u64) -> (j: usize)
    ensures
        j <= r.len(),
        forall|k: int| 0 <= k < j ==> #[trigger] le_bits(r@[k], x),
        j < r.len() ==> !le_bits(r@[j as int], x),
{
    let mut j: usize = 0;
    while j < r.len() && le_bits_exec(r[j], x)
        invariant
            j <= r.len(),
            forall|k: int| 0 <= k < j ==> #[trigger] le_bits(r@[k], x),
        decreases r.len() - j,
    {
        j += 1;
    }
    j
}

/// A sorted copy of the sample, by insertion into a fresh vector. The
/// input is only read — the caller's sequence is left untouched — and the
/// copy holds exactly the same multiset of patterns, in ascending
/// `le_bits` order.
pub fn sorted_copy(xs: &Vec<u64>) -> (r: Vec<u64>)
    ensures
        r@ == sorted_bits(xs@),
        sorted_by(r@, bit_le()),
        r@.to_multiset() == xs@.to_multiset(),
        r.len() == xs.len(),
{
    broadcast use group_to_multiset_ensures;

    let mut r: Vec<u64> = Vec::new();
    let n = xs.len();
    assert(xs@.subrange(0, 0).to_multiset() =~= r@.to_multiset()) by {
        assert(xs@.subrange(0, 0) =~= r@);
    }
    for i in 0..n
        invariant
            n == xs.len(),
            r.len() == i,
            sorted_by(r@, bit_le()),
            r@.to_multiset() == xs@.subrange(0, i as int).to_multiset(),
    {
        let x = xs[i];
        let j = insertion_point(&r, x);
        let ghost before = r@;
        proof {
            let t = before.insert(j as int, x);
            before.insert_ensures(j as int, x);
            assert forall|p: int, q: int| 0 <= p < q < t.len() implies #[trigger] bit_le()(
                t[p],
                t[q],
            ) by {
                if q < j {
                    assert(bit_le()(before[p], before[q]));
                } else if p < j && q == j {
                    assert(le_bits(before[p], x));
                } else if p < j && q > j {
                    assert(p < q - 1);
                    assert(bit_le()(before[p], before[q - 1]));
                } else if p == j {
                    assert(j < before.len());
                    assert(le_bits(x, before[j as int]));
                    if q > j + 1 {
                        assert(bit_le()(before[j as int], before[q - 1]));
                    }
                } else {
                    assert(bit_le()(before[p - 1], before[q - 1]));
                }
            }
            assert(sorted_by(t, bit_le()));
        }
        r.insert(j, x);
        proof {
            vstd::seq_lib::to_multiset_insert(before, j as int, x);
            assert(r@ == before.insert(j as int, x));
            vstd::seq_lib::to_multiset_build(xs@.subrange(0, i as int), x);
            assert(xs@.subrange(0, i + 1) =~= xs@.subrange(0, i as int).push(x));
            assert(r@.to_multiset() =~= xs@.subrange(0, i + 1).to_multiset());
        }
    }
    proof {
        assert(xs@.subrange(0, n as int) =~= xs@);
        lemma_bit_le_total_ordering();
        xs@.lemma_sort_by_ensures(bit_le());
        lemma_sorted_unique(r@, sorted_bits(xs@), bit_le());
        assert(r@ =~= sorted_bits(xs@));
    }
    r
}

/// Sorting reads only the multiset of patterns: two samples that are
/// rearrangements of one another have the same sorted copy.
pub proof fn lemma_sorted_bits_permutation(a: Seq<u64>, b: Seq<u64>)
    requires
        a.to_multiset() == b.to_multiset(),
    ensures
        sorted_bits(a) == sorted_bits(b),
{
    lemma_bit_le_total_ordering();
    a.lemma_sort_by_ensures(bit_le());
    b.lemma_sort_by_ensures(bit_le());
    lemma_sorted_unique(sorted_bits(a), sorted_bits(b), bit_le());
    assert(sorted_bits(a) =~= sorted_bits(b));
}

} // verus!
