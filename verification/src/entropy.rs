//! Fresh random bytes for salts and nonces.

use rand::Rng;
use vstd::prelude::*;

verus! {

/// Fills an array with `Rng::fill` from `rand::thread_rng`, the thread's
/// cryptographically secure generator, which the operating system seeds.
///
/// Nothing is promised of the bytes: two calls may give any two arrays.
/// `thread_rng` panics where the operating system has no seed to give.
#[verifier::external_body]
pub(crate) fn random_bytes<const N: usize>() -> (bytes: [u8; N]) {
    let mut bytes = [0u8; N];
    rand::thread_rng().fill(&mut bytes[..]);
    bytes
}

} // verus!
