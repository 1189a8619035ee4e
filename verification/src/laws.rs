//! What holds of sealing and opening, proved from their definitions.
//!
//! The cipher is known only by what its calls promise of their results, so a
//! law that rests on the cipher names, as a premise, what it needs of it.

use crate::cipher::{aes256_gcm_decrypt, aes256_gcm_encrypt};
use crate::codec::{opened, opens_only_sealed, sealable_len, sealed};
use crate::error::OpenError;
use crate::kdf::{derived_key, SALT_SIZE};
use crate::layout::{
    blob_body, blob_nonce, blob_salt, lemma_fields_of_framed, HEADER_SIZE, NONCE_SIZE,
};
use vstd::prelude::*;

verus! {

/// Round trip: a sealed blob opens, under the password it was sealed with, to
/// the plaintext that was sealed, wherever the cipher gives a plaintext back
/// from its own output under the same key and nonce.
///
/// The cipher does so for every plaintext that it takes; `aead_encrypt`
/// states it of each body it returns.
pub proof fn lemma_sealed_opens(
    plaintext: Seq<u8>,
    password: Seq<u8>,
    salt: Seq<u8>,
    nonce: Seq<u8>,
)
    requires
        salt.len() == SALT_SIZE,
        nonce.len() == NONCE_SIZE,
        aes256_gcm_decrypt(
            derived_key(password, salt),
            nonce,
            aes256_gcm_encrypt(derived_key(password, salt), nonce, plaintext),
        ) == Some(plaintext),
    ensures
        opened(sealed(plaintext, password, salt, nonce), password) == Ok::<Seq<u8>, OpenError>(
            plaintext,
        ),
{
    lemma_fields_of_framed(
        salt,
        nonce,
        aes256_gcm_encrypt(derived_key(password, salt), nonce, plaintext),
    );
}

/// `blob` with bit number `bit` of its byte at `index` flipped.
pub open spec fn with_bit_flipped(blob: Seq<u8>, index: int, bit: u8) -> Seq<u8> {
    blob.update(index, blob[index] ^ (1u8 << bit))
}

/// Opening a sealed blob under another password fails with
/// `AuthenticationFailed` wherever the cipher rejects the body under the key
/// that the other password derives from the blob's salt.
///
/// The cipher does not reject it for every other password: two passwords may
/// derive the same key, and the blob then opens under both.
pub proof fn lemma_other_password_fails(
    plaintext: Seq<u8>,
    password: Seq<u8>,
    other: Seq<u8>,
    salt: Seq<u8>,
    nonce: Seq<u8>,
)
    requires
        password != other,
        salt.len() == SALT_SIZE,
        nonce.len() == NONCE_SIZE,
        aes256_gcm_decrypt(
            derived_key(other, salt),
            nonce,
            aes256_gcm_encrypt(derived_key(password, salt), nonce, plaintext),
        ) is None,
    ensures
        opened(sealed(plaintext, password, salt, nonce), other) == Err::<Seq<u8>, OpenError>(
            OpenError::AuthenticationFailed,
        ),
{
    lemma_fields_of_framed(
        salt,
        nonce,
        aes256_gcm_encrypt(derived_key(password, salt), nonce, plaintext),
    );
}

/// Flipping one bit behind the header of a blob leaves its salt and nonce as
/// they were and changes its body, so the altered blob is never malformed:
/// the cipher decides on the altered body, under the same key and nonce.
pub proof fn lemma_bit_flip_reaches_cipher(blob: Seq<u8>, password: Seq<u8>, index: int, bit: u8)
    requires
        HEADER_SIZE <= index < blob.len(),
        bit < 8,
    ensures
        blob_salt(with_bit_flipped(blob, index, bit)) == blob_salt(blob),
        blob_nonce(with_bit_flipped(blob, index, bit)) == blob_nonce(blob),
        blob_body(with_bit_flipped(blob, index, bit)) != blob_body(blob),
        opened(with_bit_flipped(blob, index, bit), password) == (match aes256_gcm_decrypt(
            derived_key(password, blob_salt(blob)),
            blob_nonce(blob),
            blob_body(with_bit_flipped(blob, index, bit)),
        ) {
            Some(plaintext) => Ok::<Seq<u8>, OpenError>(plaintext),
            None => Err::<Seq<u8>, OpenError>(OpenError::AuthenticationFailed),
        }),
{
    let altered = with_bit_flipped(blob, index, bit);
    let byte = blob[index];
    assert(byte ^ (1u8 << bit) != byte) by (bit_vector)
        requires
            bit < 8,
    ;
    assert(blob_salt(altered) =~= blob_salt(blob));
    assert(blob_nonce(altered) =~= blob_nonce(blob));
    assert(blob_body(altered)[index - HEADER_SIZE] == altered[index]);
    assert(blob_body(blob)[index - HEADER_SIZE] == blob[index]);
}

/// Opening a blob of which one bit behind the header was flipped fails with
/// `AuthenticationFailed` wherever the cipher rejects the altered body under
/// the key of the password and the blob's salt.
pub proof fn lemma_tampered_blob_fails(blob: Seq<u8>, password: Seq<u8>, index: int, bit: u8)
    requires
        HEADER_SIZE <= index < blob.len(),
        bit < 8,
        aes256_gcm_decrypt(
            derived_key(password, blob_salt(blob)),
            blob_nonce(blob),
            blob_body(with_bit_flipped(blob, index, bit)),
        ) is None,
    ensures
        opened(with_bit_flipped(blob, index, bit), password) == Err::<Seq<u8>, OpenError>(
            OpenError::AuthenticationFailed,
        ),
{
    lemma_bit_flip_reaches_cipher(blob, password, index, bit);
}

/// A sealed blob of which one bit behind the header was flipped does not open
/// to the plaintext that was sealed: opening fails, or gives another
/// plaintext.
pub proof fn lemma_tampered_blob_differs(
    plaintext: Seq<u8>,
    password: Seq<u8>,
    salt: Seq<u8>,
    nonce: Seq<u8>,
    index: int,
    bit: u8,
)
    requires
        salt.len() == SALT_SIZE,
        nonce.len() == NONCE_SIZE,
        sealable_len(plaintext.len() as int),
        HEADER_SIZE <= index < sealed(plaintext, password, salt, nonce).len(),
        bit < 8,
        opens_only_sealed(
            with_bit_flipped(sealed(plaintext, password, salt, nonce), index, bit),
            password,
        ),
    ensures
        opened(with_bit_flipped(sealed(plaintext, password, salt, nonce), index, bit), password)
            != Ok::<Seq<u8>, OpenError>(plaintext),
{
    let blob = sealed(plaintext, password, salt, nonce);
    let altered = with_bit_flipped(blob, index, bit);
    lemma_fields_of_framed(
        salt,
        nonce,
        aes256_gcm_encrypt(derived_key(password, salt), nonce, plaintext),
    );
    lemma_bit_flip_reaches_cipher(blob, password, index, bit);
    if opened(altered, password) == Ok::<Seq<u8>, OpenError>(plaintext) {
        assert(altered == blob);
        assert(blob_body(altered) == blob_body(blob));
    }
}

} // verus!
