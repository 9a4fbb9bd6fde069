use vstd::prelude::*;

verus! {

/// The IEEE-754 binary64 bit pattern of positive zero: all bits clear.
pub const ZERO_BITS: u64 = 0;

/// The four statistics this library computes over a sample. Naming them
/// lets callers treat the statistics polymorphically — keep a table of
/// them, or run one chosen at run time — while each shares the one
/// result convention below.
#[derive(Clone, Copy, Debug, PartialEq, Eq, Structural)]
pub enum Stat {
    Mean,
    Stddev,
    Median,
    L2,
}

/// The result owed on an empty sample. The conventions are deliberately
/// asymmetric: the mean and the L2 norm of an empty sample are zero by
/// convention, while the standard deviation and the median are undefined
/// there and yield no value.
pub open spec fn empty_case(which: Stat) -> Option<u64> {
    match which {
        Stat::Mean => Some(ZERO_BITS),
        Stat::L2 => Some(ZERO_BITS),
        Stat::Stddev => None,
        Stat::Median => None,
    }
}

/// The statistic's result for a sample of length `len`: the empty-sample
/// convention when the sample is empty, otherwise the value computed over
/// the sample (handed in as its bit pattern), which is always defined.
pub open spec fn stat_result(which: Stat, len: nat, value_bits: u64) -> Option<u64> {
    if len == 0 {
        empty_case(which)
    } else {
        Some(value_bits)
    }
}

/// Whether the statistic has a defined value on samples of length `len`.
pub open spec fn defined_for(which: Stat, len: nat) -> bool {
    stat_result(which, len, ZERO_BITS) is Some
}

/// Applies the statistic's empty-sample rule: for an empty sample the
/// result is fixed by the convention above and `value_bits` is ignored;
/// for a non-empty one the computed value passes through unchanged.
pub fn apply_empty_rule(which: Stat, len: usize, value_bits: u64) -> (r: Option<u64>)
    ensures
        r == stat_result(which, len as nat, value_bits),
{
    if len == 0 {
        match which {
            Stat::Mean => Some(ZERO_BITS),
            Stat::L2 => Some(ZERO_BITS),
            Stat::Stddev => None,
            Stat::Median => None,
        }
    } else {
        Some(value_bits)
    }
}

/// Decides whether the statistic is defined on samples of length `len`:
/// always for the mean and the L2 norm, only on non-empty samples for the
/// standard deviation and the median.
pub fn is_defined(which: Stat, len: usize) -> (r: bool)
    ensures
        r == defined_for(which, len as nat),
{
    if len > 0 {
        true
    } else {
        match which {
            Stat::Mean => true,
            Stat::L2 => true,
            Stat::Stddev => false,
            Stat::Median => false,
        }
    }
}

} // verus!
