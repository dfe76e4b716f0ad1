//! Draws from the thread's random number generator.

use vstd::prelude::*;

verus! {

/// Calls `fastrand::usize(0..n)`. The contract claims only that the number drawn
/// lies in the range; which one it is depends on the generator's state.
/// An empty range would panic, so `n` has to be positive.
#[verifier::external_body]
pub(crate) fn random_below(n: usize) -> (r: usize)
    requires
        n > 0,
    ensures
        r < n,
{
    fastrand::usize(0..n)
}

} // verus!
