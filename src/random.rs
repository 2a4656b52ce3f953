//! Random draws, from the thread-local generator of `rand`.
use vstd::prelude::*;

verus! {

/// Relies on `rand::thread_rng` and `rand::Rng::gen_range`: a value drawn
/// uniformly from the half-open range `lo..hi` (`gen_range` panics on an
/// empty range, hence `lo < hi`).
#[verifier::external_body]
pub(crate) fn random_in(lo: i64, hi: i64) -> (r: i64)
    requires
        lo < hi,
    ensures
        lo <= r < hi,
{
    rand::Rng::gen_range(&mut rand::thread_rng(), lo..hi)
}

} // verus!
