//! The source of random bytes.

use vstd::prelude::*;

verus! {

/// Draws a byte with `rand::random::<u8>()`, which samples the thread-local
/// generator of the `rand` crate. Nothing is claimed of the byte: any of the
/// 256 values may come back, and two draws need not agree.
#[verifier::external_body]
pub(crate) fn random_byte() -> (byte: u8) {
    rand::random::<u8>()
}

} // verus!
