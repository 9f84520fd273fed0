use rand::RngExt;
use vstd::prelude::*;

verus! {

/// Relies on rand's `RngExt::random_range` over an `i64` range: the result
/// is drawn uniformly from the half-open range `lo..hi`, which must not be
/// empty (rand panics on an empty range). The draw comes from the
/// thread-local generator returned by `rand::rng()`.
#[verifier::external_body]
pub(crate) fn random_in_range(lo: i64, hi: i64) -> (r: i64)
    requires
        lo < hi,
    ensures
        lo <= r < hi,
{
    rand::rng().random_range(lo..hi)
}

} // verus!
