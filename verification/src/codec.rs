//! Sealing a plaintext under a password, and opening a sealed blob.

use crate::cipher::{
    aead_decrypt, aead_encrypt, aes256_gcm_decrypt, aes256_gcm_encrypt, CIPHER_MAX_PLAINTEXT,
    TAG_SIZE,
};
use crate::entropy::random_bytes;
use crate::error::{OpenError, SealError};
use crate::kdf::{derive_key, derived_key, SALT_SIZE};
use crate::laws::lemma_sealed_opens;
use crate::layout::{
    blob_body, blob_nonce, blob_salt, frame_blob, framed, lemma_fields_of_framed,
    lemma_framed_of_fields, split_blob, HEADER_SIZE, NONCE_SIZE,
};
use vstd::prelude::*;
use vstd::string::StringSliceAdditionalSpecFns;

verus! {

/// How much longer a blob is than the plaintext in it: header and tag.
pub const BLOB_OVERHEAD: usize = HEADER_SIZE + TAG_SIZE;

/// Whether a plaintext of `len` bytes can be sealed: the cipher takes it, and
/// the blob is no longer than an allocation may be.
pub open spec fn sealable_len(len: int) -> bool {
    len <= CIPHER_MAX_PLAINTEXT && BLOB_OVERHEAD + len <= isize::MAX
}

/// The blob that seals `plaintext` under `password` with this salt and nonce.
pub open spec fn sealed(plaintext: Seq<u8>, password: Seq<u8>, salt: Seq<u8>, nonce: Seq<u8>) -> Seq<
    u8,
> {
    framed(salt, nonce, aes256_gcm_encrypt(derived_key(password, salt), nonce, plaintext))
}

/// What opening `blob` under `password` gives: a blob without a full header
/// is malformed; otherwise the cipher decides, under the key derived from the
/// password and the blob's salt, on the blob's nonce and body.
pub open spec fn opened(blob: Seq<u8>, password: Seq<u8>) -> Result<Seq<u8>, OpenError> {
    if blob.len() < HEADER_SIZE {
        Err(OpenError::MalformedBlob)
    } else {
        match aes256_gcm_decrypt(
            derived_key(password, blob_salt(blob)),
            blob_nonce(blob),
            blob_body(blob),
        ) {
            Some(plaintext) => Ok(plaintext),
            None => Err(OpenError::AuthenticationFailed),
        }
    }
}

/// Whether `blob` opens under `password` only as the sealing of what comes
/// out: if a plaintext that can be sealed comes out, then the blob is, byte
/// for byte, that plaintext sealed under the password with the blob's own
/// salt and nonce.
///
/// `decrypt_data` states it of every blob that it is given.
pub open spec fn opens_only_sealed(blob: Seq<u8>, password: Seq<u8>) -> bool {
    opened(blob, password) matches Ok(plaintext) ==> (sealable_len(plaintext.len() as int) ==> blob
        == sealed(plaintext, password, blob_salt(blob), blob_nonce(blob)))
}

/// Tells whether a plaintext of `len` bytes can be sealed.
pub fn sealable(len: usize) -> (ok: bool)
    ensures
        ok == sealable_len(len as int),
{
    len as u64 <= CIPHER_MAX_PLAINTEXT && len <= isize::MAX as usize - BLOB_OVERHEAD
}

/// Turns what the cipher gave for a plaintext into the result of sealing:
/// the body framed behind salt and nonce, or the cipher's refusal.
pub fn seal_outcome(
    salt: &[u8; SALT_SIZE],
    nonce: &[u8; NONCE_SIZE],
    encrypted: Option<Vec<u8>>,
) -> (r: Result<Vec<u8>, SealError>)
    requires
        encrypted matches Some(body) ==> HEADER_SIZE + body@.len() <= isize::MAX,
    ensures
        match encrypted {
            Some(body) => r matches Ok(blob) && blob@ == framed(salt@, nonce@, body@),
            None => r == Err::<Vec<u8>, SealError>(SealError::PlaintextTooLong),
        },
{
    match encrypted {
        Some(body) => Ok(frame_blob(salt, nonce, body.as_slice())),
        None => Err(SealError::PlaintextTooLong),
    }
}

/// Turns what the cipher gave for a body into the result of opening: the
/// plaintext, or an authentication failure.
pub fn open_outcome(decrypted: Option<Vec<u8>>) -> (r: Result<Vec<u8>, OpenError>)
    ensures
        match decrypted {
            Some(plaintext) => r == Ok::<Vec<u8>, OpenError>(plaintext),
            None => r == Err::<Vec<u8>, OpenError>(OpenError::AuthenticationFailed),
        },
{
    match decrypted {
        Some(plaintext) => Ok(plaintext),
        None => Err(OpenError::AuthenticationFailed),
    }
}

/// Seals `data` under `password` with the given salt and nonce.
///
/// The caller answers for the nonce: it must be fresh for every call.
/// `encrypt_data` draws both at random.
pub fn encrypt_data_with(
    data: &[u8],
    password: &str,
    salt: &[u8; SALT_SIZE],
    nonce: &[u8; NONCE_SIZE],
) -> (r: Result<Vec<u8>, SealError>)
    ensures
        match r {
            Ok(blob) => {
                &&& sealable_len(data@.len() as int)
                &&& blob@ == sealed(data@, password.spec_bytes(), salt@, nonce@)
                &&& blob@.len() == BLOB_OVERHEAD + data@.len()
                &&& opened(blob@, password.spec_bytes()) == Ok::<Seq<u8>, OpenError>(data@)
            },
            Err(e) => !sealable_len(data@.len() as int) && e == SealError::PlaintextTooLong,
        },
{
    if !sealable(data.len()) {
        return Err(SealError::PlaintextTooLong);
    }
    let key = derive_key(password, salt.as_slice());
    let encrypted = aead_encrypt(key.as_slice(), nonce.as_slice(), data);
    proof {
        lemma_sealed_opens(data@, password.spec_bytes(), salt@, nonce@);
    }
    seal_outcome(salt, nonce, encrypted)
}

/// Seals `data` under `password`: draws a fresh salt and a fresh nonce, and
/// returns `salt ‖ nonce ‖ ciphertext ‖ tag`.
///
/// Whatever salt and nonce were drawn, the blob holds them in its header, its
/// body is the cipher's output under the key derived from the password and
/// that salt, and opening it under the same password gives `data` back.
pub fn encrypt_data(data: &[u8], password: &str) -> (r: Result<Vec<u8>, SealError>)
    ensures
        match r {
            Ok(blob) => {
                &&& sealable_len(data@.len() as int)
                &&& blob@.len() == BLOB_OVERHEAD + data@.len()
                &&& blob@ == sealed(
                    data@,
                    password.spec_bytes(),
                    blob_salt(blob@),
                    blob_nonce(blob@),
                )
                &&& opened(blob@, password.spec_bytes()) == Ok::<Seq<u8>, OpenError>(data@)
            },
            Err(e) => !sealable_len(data@.len() as int) && e == SealError::PlaintextTooLong,
        },
{
    let salt: [u8; SALT_SIZE] = random_bytes();
    let nonce: [u8; NONCE_SIZE] = random_bytes();
    proof {
        lemma_fields_of_framed(
            salt@,
            nonce@,
            aes256_gcm_encrypt(derived_key(password.spec_bytes(), salt@), nonce@, data@),
        );
    }
    encrypt_data_with(data, password, &salt, &nonce)
}

/// Opens `data` under `password`.
///
/// A blob shorter than its header is malformed, and no key is derived for
/// it. Otherwise the key is derived from the password and the blob's salt,
/// and the cipher either gives the plaintext or rejects the body.
pub fn decrypt_data(data: &[u8], password: &str) -> (r: Result<Vec<u8>, OpenError>)
    ensures
        match r {
            Ok(plaintext) => opened(data@, password.spec_bytes()) == Ok::<Seq<u8>, OpenError>(
                plaintext@,
            ),
            Err(e) => opened(data@, password.spec_bytes()) == Err::<Seq<u8>, OpenError>(e),
        },
        data@.len() < HEADER_SIZE ==> r == Err::<Vec<u8>, OpenError>(OpenError::MalformedBlob),
        r matches Ok(plaintext) ==> plaintext@.len() + BLOB_OVERHEAD == data@.len(),
        opens_only_sealed(data@, password.spec_bytes()),
{
    let parts = match split_blob(data) {
        Ok(parts) => parts,
        Err(e) => {
            return Err(e);
        },
    };
    let key = derive_key(password, parts.salt);
    proof {
        lemma_framed_of_fields(data@);
    }
    open_outcome(aead_decrypt(key.as_slice(), parts.nonce, parts.body))
}

} // verus!
