//! Key derivation: from a password and a salt to a 32-byte key.

use vstd::prelude::*;
use vstd::string::StringSliceAdditionalSpecFns;

verus! {

/// Length of a derived key in bytes (AES-256).
pub const KEY_SIZE: usize = 32;

/// Length of a salt in bytes.
pub const SALT_SIZE: usize = 16;

/// Number of PBKDF2 rounds of every derivation.
pub const PBKDF2_ITERATIONS: u32 = 100_000;

/// The first 32 bytes of PBKDF2 with HMAC-SHA256 as its pseudorandom
/// function, for a password, a salt and a number of rounds.
pub uninterp spec fn pbkdf2_hmac_sha256(password: Seq<u8>, salt: Seq<u8>, rounds: u32) -> Seq<u8>;

/// The key that belongs to a password and a salt.
pub open spec fn derived_key(password: Seq<u8>, salt: Seq<u8>) -> Seq<u8> {
    pbkdf2_hmac_sha256(password, salt, PBKDF2_ITERATIONS)
}

/// Runs `pbkdf2::pbkdf2` with `Hmac<Sha256>` on a zeroed buffer of 32 bytes.
///
/// Trusted: the buffer then holds the PBKDF2 output for these arguments, a
/// function of them alone. `pbkdf2` can only fail where the pseudorandom
/// function refuses the password as its key, and HMAC takes a key of any
/// length, so its `Result` is always `Ok`.
#[verifier::external_body]
fn pbkdf2_key(password: &[u8], salt: &[u8], rounds: u32) -> (key: [u8; KEY_SIZE])
    ensures
        key@ == pbkdf2_hmac_sha256(password@, salt@, rounds),
{
    let mut key = [0u8; KEY_SIZE];
    let _ = pbkdf2::pbkdf2::<hmac::Hmac<sha2::Sha256>>(password, salt, rounds, &mut key);
    key
}

/// Derives the key for `password` and `salt`.
///
/// The password is taken as the bytes of its UTF-8 encoding, as they are. The
/// result depends on the password and the salt alone.
pub fn derive_key(password: &str, salt: &[u8]) -> (key: [u8; KEY_SIZE])
    requires
        salt@.len() == SALT_SIZE,
    ensures
        key@ == derived_key(password.spec_bytes(), salt@),
        key@.len() == KEY_SIZE,
{
    pbkdf2_key(password.as_bytes(), salt, PBKDF2_ITERATIONS)
}

/// Derivation is a function: the same password and salt give the same key.
pub proof fn lemma_derived_key_deterministic(
    password_a: Seq<u8>,
    salt_a: Seq<u8>,
    password_b: Seq<u8>,
    salt_b: Seq<u8>,
)
    requires
        password_a == password_b,
        salt_a == salt_b,
    ensures
        derived_key(password_a, salt_a) == derived_key(password_b, salt_b),
{
}

} // verus!
