//! The source of random bytes behind the `CXNN` instruction.

use rand::rngs::ThreadRng;
use rand::Rng;
use vstd::prelude::*;

verus! {

/// `rand::rngs::ThreadRng`, a handle to the thread-local generator. Nothing
/// inside it is visible to the verifier.
#[verifier::external_type_specification]
#[verifier::external_body]
pub struct ExThreadRng(rand::rngs::ThreadRng);

/// Calls `rand::thread_rng`. Nothing is claimed of the handle it returns.
/// The call fails only where the system cannot seed the generator.
#[verifier::external_body]
pub(crate) fn new_thread_rng() -> (rng: ThreadRng) {
    rand::thread_rng()
}

/// Calls `rand::Rng::gen` for a `u8`. The byte depends on the generator's
/// hidden state, so nothing is claimed of it beyond its type.
#[verifier::external_body]
pub(crate) fn random_byte(rng: &mut ThreadRng) -> (byte: u8) {
    rng.gen()
}

} // verus!
