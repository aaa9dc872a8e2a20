//! The source of random numbers.

use rand::Rng;
use vstd::prelude::*;

verus! {

/// Draws a number between `low` and `high`, both included, from the thread's
/// generator: `rand::Rng::gen_range` on `low..=high`. The call panics on an
/// empty range, which `requires` leaves out. Which number comes back is left
/// open: only that it lies in the range.
#[verifier::external_body]
pub(crate) fn random_between(low: u128, high: u128) -> (r: u128)
    requires
        low <= high,
    ensures
        low <= r <= high,
{
    rand::thread_rng().gen_range(low..=high)
}

} // verus!
