//! Random draws used by the spawn timers and spawn positions.
use rand::Rng;
use vstd::prelude::*;

verus! {

/// Draws a number uniformly from `lo..hi`.
///
/// Relies on `rand::Rng::gen_range` over a half-open range: the value lies in
/// the range, and the call panics only on an empty range, which `requires`
/// rules out.
#[verifier::external_body]
pub(crate) fn draw_between(lo: u64, hi: u64) -> (r: u64)
    requires
        lo < hi,
    ensures
        lo <= r < hi,
{
    rand::thread_rng().gen_range(lo..hi)
}

} // verus!
