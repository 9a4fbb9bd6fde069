//! Core of a small descriptive-statistics library: arithmetic mean,
//! population standard deviation, median, and Euclidean (L2) norm over a
//! finite sample of IEEE-754 binary64 values.
//!
//! Everything here works on the 64-bit patterns of the sample values,
//! never on floating-point numbers themselves: the ordering of patterns,
//! the sorted copy that the median reads, the choice of the middle
//! elements, and the empty-input rule of each statistic are specified and
//! verified here, while the caller performs the floating-point
//! accumulation and hands the resulting bit pattern back.
//!
//! The empty-input conventions are deliberately asymmetric: the mean and
//! the L2 norm of an empty sample are zero, while the standard deviation
//! and the median of an empty sample are undefined. That asymmetry is a
//! documented quirk of the contract, not an accident, and `stat` states
//! it exactly.
//!
//! Samples holding NaN patterns are outside the defined behaviour of the
//! statistics; the functions here still return (the pattern order places
//! NaN patterns at the ends), they just promise nothing numerically
//! meaningful for them.

pub mod median;
pub mod order;
pub mod sort;
pub mod stat;
