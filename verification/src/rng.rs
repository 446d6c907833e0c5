//! The random numbers that colour the particles.

use vstd::prelude::*;
use rand::Rng;
use rand::rngs::ThreadRng;

verus! {

/// The thread-local generator of the `rand` crate. Nothing is known of its state.
#[verifier::external_type_specification]
#[verifier::external_body]
pub struct ExThreadRng(rand::rngs::ThreadRng);

/// Calls `rand::thread_rng`, which hands out a handle to the generator of the
/// current thread. Nothing is claimed of the handle. The generator is seeded from
/// the operating system on its first use in a thread, and that call fails where the
/// system cannot supply the seed or refuses the handler that watches for forks.
#[verifier::external_body]
pub(crate) fn thread_generator() -> (rng: ThreadRng) {
    rand::thread_rng()
}

/// Calls `Rng::gen` for one byte. Every byte is a possible outcome, and two calls
/// need not agree, so the contract promises nothing. The generator takes a fresh
/// seed from the operating system after every 64 KiB that it has given out and
/// after a fork, and the call fails where the system cannot supply that seed.
#[verifier::external_body]
pub(crate) fn random_byte(rng: &mut ThreadRng) -> (byte: u8) {
    rng.gen::<u8>()
}

} // verus!
