use vstd::prelude::*;
use rand::Rng;

verus! {

/// Relies on rand's `Rng::gen_range` on the thread-local generator: it draws a
/// value from the given range and panics only when the range is empty, which
/// the precondition rules out. The draw is uniform and independent per call;
/// the contract states only that the result lies within the bounds, since
/// nothing stronger holds of a single outcome.
#[verifier::external_body]
pub(crate) fn roll_inclusive(lo: u32, hi: u32) -> (r: u32)
    requires
        lo <= hi,
    ensures
        lo <= r <= hi,
{
    rand::thread_rng().gen_range(lo..=hi)
}

} // verus!
