//! The library's single tie to the random number generator. Everything the
//! spawning logic decides from a draw is verified elsewhere, against every
//! value this function may hand back.

use vstd::prelude::*;
use rand::Rng;

verus! {

/// Relies on rand's `Rng::gen_range` on the thread-local generator, over the
/// half-open range `0..bound`: the draw lies inside the range, and the call
/// panics only on an empty range, which the precondition rules out. Nothing
/// more can be promised of a random value.
#[verifier::external_body]
pub(crate) fn random_below(bound: i64) -> (r: i64)
    requires
        0 < bound,
    ensures
        0 <= r < bound,
{
    rand::thread_rng().gen_range(0..bound)
}

} // verus!
