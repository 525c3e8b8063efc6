use vstd::prelude::*;

verus! {

/// The largest amount an operation accepts: 2^53 - 1, the largest integer
/// that a double-precision JSON number carries without loss.
pub const MAX_SAFE_INTEGER: u64 = 9_007_199_254_740_991;

} // verus!
