//! The source of random bytes.

use rand::Rng;
use vstd::prelude::*;

verus! {

/// Draws a byte with `rand::rng().random_range(0..=255)`, the thread-local
/// generator of the `rand` crate. Nothing is claimed of the byte: every
/// value of `u8` may come back, and two draws need not agree.
#[verifier::external_body]
pub(crate) fn random_byte() -> (byte: u8) {
    let drawn: i32 = rand::rng().random_range(0..=255);
    drawn as u8
}

} // verus!
