//! Access to the random number generator used by the statistics tools.

use vstd::prelude::*;

verus! {

/// The thread-local generator of the `rand` crate. Nothing is known of
/// what a value of this type holds.
#[verifier::external_type_specification]
#[verifier::external_body]
pub struct ExThreadRng(rand::rngs::ThreadRng);

/// `rand::thread_rng` hands out a handle to the generator of the calling
/// thread, which the system seeds on first use. Nothing is claimed of
/// the handle or of the numbers drawn from it. Where the system has no
/// entropy to seed the generator with, the call does not return.
pub assume_specification[ rand::thread_rng ]() -> (rng: rand::rngs::ThreadRng);

/// Returns the thread-local random number generator, seeded by the system
#[inline]
pub fn get_rng() -> (rng: rand::rngs::ThreadRng) {
    rand::thread_rng()
}

} // verus!
