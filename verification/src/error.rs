//! The ways in which sealing and opening fail.

use vstd::prelude::*;

verus! {

/// Why a plaintext was not sealed.
#[derive(Clone, Copy, Debug, PartialEq, Eq, Structural)]
pub enum SealError {
    /// The plaintext is longer than the cipher takes or than a blob can hold.
    PlaintextTooLong,
}

/// Why a blob was not opened.
#[derive(Clone, Copy, Debug, PartialEq, Eq, Structural)]
pub enum OpenError {
    /// The blob is too short to hold a salt and a nonce.
    MalformedBlob,
    /// The cipher rejected the body: the password is wrong or the blob was
    /// altered. The two are not told apart.
    AuthenticationFailed,
}

} // verus!
