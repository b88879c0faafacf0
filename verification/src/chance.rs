//! The one source of chance: the thread's random number generator.

use rand::rngs::ThreadRng;
use rand::Rng;
use vstd::prelude::*;

verus! {

/// `rand::rngs::ThreadRng`, the handle to a thread's generator: carried
/// along as it is, with nothing known of what it holds.
#[verifier::external_type_specification]
#[verifier::external_body]
pub struct ExThreadRng(rand::rngs::ThreadRng);

/// `rand::thread_rng`: a handle to the generator of the calling thread.
/// Nothing is claimed of it.
#[verifier::external_body]
pub(crate) fn new_rng() -> (rng: ThreadRng) {
    rand::thread_rng()
}

/// `rand::Rng::gen_range` on `i32`: a value that is at least `low` and less
/// than `high`. The call panics unless `low < high`.
#[verifier::external_body]
pub(crate) fn roll(rng: &mut ThreadRng, low: i32, high: i32) -> (r: i32)
    requires
        low < high,
    ensures
        low <= r < high,
{
    rng.gen_range(low, high)
}

} // verus!
