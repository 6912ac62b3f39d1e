use vstd::prelude::*;

use rand::Rng;

verus! {

/// Relies on rand::thread_rng and rand::Rng::gen_range: the draw is taken
/// from the thread-local generator, uniformly over the half-open range
/// `[0, bound)`. `gen_range` panics only on an empty range, which the
/// precondition `bound >= 1` rules out. Nothing more than the range can be
/// promised of a random value.
#[verifier::external_body]
pub(crate) fn random_below(bound: usize) -> (r: usize)
    requires
        bound >= 1,
    ensures
        r < bound,
{
    rand::thread_rng().gen_range(0..bound)
}

} // verus!
