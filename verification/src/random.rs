//! Where the game draws its chance from.

use vstd::prelude::*;
use rand::Rng;

verus! {

/// Draws a whole number between `low` and `high`, both included, from the
/// generator that the `rand` crate keeps for the calling thread:
/// `rand::thread_rng()` and then `Rng::gen_range` on the closed range.
///
/// Taken on trust: that the number drawn lies within the range. Which
/// number comes is left open, and two draws need not agree. `gen_range`
/// panics on an empty range, which the precondition keeps out; the
/// generator itself panics if the system cannot seed it.
#[verifier::external_body]
pub(crate) fn random_between(low: i32, high: i32) -> (drawn: i32)
    requires
        low <= high,
    ensures
        low <= drawn <= high,
{
    rand::thread_rng().gen_range(low..=high)
}

} // verus!
