//! Authenticated encryption: AES-256-GCM with a 12-byte nonce, a 16-byte tag
//! and no associated data.

use crate::kdf::KEY_SIZE;
use crate::layout::NONCE_SIZE;
use aes_gcm::aead::Aead;
use aes_gcm::{Aes256Gcm, KeyInit, Nonce};
use vstd::prelude::*;

verus! {

/// Length of the authentication tag that ends a body.
pub const TAG_SIZE: usize = 16;

/// The longest plaintext that the cipher takes, in bytes: 2^36.
pub const CIPHER_MAX_PLAINTEXT: u64 = 68_719_476_736;

/// The ciphertext and tag that AES-256-GCM gives for a key, a nonce and a
/// plaintext, with no associated data.
pub uninterp spec fn aes256_gcm_encrypt(key: Seq<u8>, nonce: Seq<u8>, plaintext: Seq<u8>) -> Seq<u8>;

/// The plaintext that AES-256-GCM gives for a key, a nonce and a body
/// (ciphertext, then tag), with no associated data: `None` where it rejects
/// the body.
pub uninterp spec fn aes256_gcm_decrypt(key: Seq<u8>, nonce: Seq<u8>, body: Seq<u8>) -> Option<Seq<u8>>;

/// Makes the cipher with `Aes256Gcm::new_from_slice` and calls
/// `Aead::encrypt` on the plaintext.
///
/// Trusted, as the sources of `aes-gcm` and `aead` show it:
/// - a 32-byte key is never refused, and the cipher refuses a plaintext if
///   and only if it is longer than 2^36 bytes;
/// - the body is a function of key, nonce and plaintext, and is the
///   plaintext's length plus a 16-byte tag long;
/// - decrypting that body with the same key and nonce recomputes the same
///   tag and undoes the same keystream, so it gives the plaintext back.
///
/// Left out by `requires`: a key that is not 32 bytes long, so that making
/// the cipher cannot fail; a nonce that is not 12 bytes long, on which
/// `Nonce::from_slice` panics; and a plaintext so long that `encrypt` would
/// ask for a buffer, plaintext and tag, of more than `isize::MAX` bytes, on
/// which `Vec::with_capacity` panics.
#[verifier::external_body]
pub(crate) fn aead_encrypt(key: &[u8], nonce: &[u8], plaintext: &[u8]) -> (out: Option<Vec<u8>>)
    requires
        key@.len() == KEY_SIZE,
        nonce@.len() == NONCE_SIZE,
        plaintext@.len() + TAG_SIZE <= isize::MAX,
    ensures
        out is Some <==> plaintext@.len() <= CIPHER_MAX_PLAINTEXT,
        out matches Some(body) ==> body@ == aes256_gcm_encrypt(key@, nonce@, plaintext@),
        out matches Some(body) ==> body@.len() == plaintext@.len() + TAG_SIZE,
        out matches Some(body) ==> aes256_gcm_decrypt(key@, nonce@, body@) == Some(plaintext@),
{
    match Aes256Gcm::new_from_slice(key) {
        Ok(cipher) => cipher.encrypt(Nonce::from_slice(nonce), plaintext).ok(),
        Err(_) => None,
    }
}

/// Makes the cipher with `Aes256Gcm::new_from_slice` and calls
/// `Aead::decrypt` on the body.
///
/// Trusted, as the sources of `aes-gcm` and `aead` show it:
/// - a 32-byte key is never refused; whether the body is accepted, and the
///   plaintext that then comes out, are a function of key, nonce and body;
/// - a plaintext that comes out is as long as the body without its 16-byte
///   tag;
/// - a body is accepted only if its tag is the one that encryption computes
///   for its ciphertext, and the plaintext is that ciphertext with the
///   keystream of encryption undone: so the body is what encrypting the
///   plaintext gives, where the plaintext is one that the cipher encrypts.
///
/// Left out by `requires`: a key that is not 32 bytes long, so that making
/// the cipher cannot fail, and a nonce that is not 12 bytes long, on which
/// `Nonce::from_slice` panics.
#[verifier::external_body]
pub(crate) fn aead_decrypt(key: &[u8], nonce: &[u8], body: &[u8]) -> (out: Option<Vec<u8>>)
    requires
        key@.len() == KEY_SIZE,
        nonce@.len() == NONCE_SIZE,
    ensures
        out matches Some(plaintext) ==> aes256_gcm_decrypt(key@, nonce@, body@) == Some(plaintext@),
        out is None ==> aes256_gcm_decrypt(key@, nonce@, body@) is None,
        out matches Some(plaintext) ==> plaintext@.len() + TAG_SIZE == body@.len(),
        out matches Some(plaintext) ==> (plaintext@.len() <= CIPHER_MAX_PLAINTEXT ==> body@
            == aes256_gcm_encrypt(key@, nonce@, plaintext@)),
{
    match Aes256Gcm::new_from_slice(key) {
        Ok(cipher) => cipher.decrypt(Nonce::from_slice(nonce), body).ok(),
        Err(_) => None,
    }
}

} // verus!
