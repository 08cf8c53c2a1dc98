//! The source of chance for the overlay.

use rand::Rng;
use vstd::prelude::*;

verus! {

/// Draws a number from `0..bound` with `rand::Rng::gen_range` on the
/// generator of the current thread (`rand::thread_rng`). The draw is uniform;
/// the contract claims only what holds of every draw: it lies below `bound`.
/// An empty range makes `gen_range` panic, so `bound` must be positive.
#[verifier::external_body]
pub(crate) fn random_below(bound: u64) -> (drawn: u64)
    requires
        bound > 0,
    ensures
        drawn < bound,
{
    rand::thread_rng().gen_range(0..bound)
}

} // verus!
