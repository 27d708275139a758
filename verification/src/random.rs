//! The source of chance: the thread-local generator of the `rand` crate.

use rand::rngs::ThreadRng;
use rand::Rng;
use vstd::prelude::*;

verus! {

/// `rand::rngs::ThreadRng`, a handle to the generator of the current thread.
/// Nothing is known of its state.
#[verifier::external_type_specification]
#[verifier::external_body]
pub struct ExThreadRng(ThreadRng);

/// `rand::thread_rng` hands out the generator of the current thread; nothing
/// is claimed of it. It takes no argument, so nothing rules out its one
/// failure: it panics where the system gives it no seed.
pub assume_specification[ rand::thread_rng ]() -> (rng: ThreadRng)
;

/// `Rng::gen_range` on the half-open range `0..bound`: some number of that
/// range, whatever the generator's state. The call panics on an empty range,
/// so `bound` must not be 0. Nothing is claimed of how the numbers are
/// spread, nor of the generator afterwards.
#[verifier::external_body]
pub(crate) fn gen_below(rng: &mut ThreadRng, bound: usize) -> (drawn: usize)
    requires
        bound > 0,
    ensures
        drawn < bound,
{
    rng.gen_range(0..bound)
}

} // verus!
