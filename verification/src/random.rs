//! The random source of the machine.

use vstd::prelude::*;

verus! {

/// Draws a byte with `rand::random`, which takes it from the generator that
/// `rand` keeps for the calling thread. Nothing is claimed of the byte: it is
/// any `u8`, and two calls may give two different ones.
#[verifier::external_body]
pub(crate) fn random_byte() -> (byte: u8) {
    rand::random::<u8>()
}

} // verus!
