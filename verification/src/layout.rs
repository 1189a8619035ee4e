//! The byte layout of a sealed blob.
//!
//! ```text
//! offset  length    field
//! 0       16        salt
//! 16      12        nonce
//! 28      variable  body: ciphertext, then the 16-byte authentication tag
//! ```

use crate::error::OpenError;
use crate::kdf::SALT_SIZE;
use vstd::prelude::*;

verus! {

/// Length of a nonce in bytes.
pub const NONCE_SIZE: usize = 12;

/// Length of what precedes the body: salt and nonce.
pub const HEADER_SIZE: usize = SALT_SIZE + NONCE_SIZE;

/// The salt field of a blob of at least `HEADER_SIZE` bytes.
pub open spec fn blob_salt(blob: Seq<u8>) -> Seq<u8> {
    blob.subrange(0, SALT_SIZE as int)
}

/// The nonce field of a blob of at least `HEADER_SIZE` bytes.
pub open spec fn blob_nonce(blob: Seq<u8>) -> Seq<u8> {
    blob.subrange(SALT_SIZE as int, HEADER_SIZE as int)
}

/// The body of a blob of at least `HEADER_SIZE` bytes.
pub open spec fn blob_body(blob: Seq<u8>) -> Seq<u8> {
    blob.subrange(HEADER_SIZE as int, blob.len() as int)
}

/// The blob made of a salt, a nonce and a body, in this order.
pub open spec fn framed(salt: Seq<u8>, nonce: Seq<u8>, body: Seq<u8>) -> Seq<u8> {
    salt + nonce + body
}

/// The three fields of a blob, borrowed from it.
#[derive(Clone, Copy, Debug)]
pub struct BlobParts<'a> {
    pub salt: &'a [u8],
    pub nonce: &'a [u8],
    pub body: &'a [u8],
}

/// Concatenates salt, nonce and body into a blob.
pub fn frame_blob(salt: &[u8; SALT_SIZE], nonce: &[u8; NONCE_SIZE], body: &[u8]) -> (blob: Vec<u8>)
    requires
        HEADER_SIZE + body@.len() <= isize::MAX,
    ensures
        blob@ == framed(salt@, nonce@, body@),
{
    let mut blob: Vec<u8> = Vec::with_capacity(SALT_SIZE + NONCE_SIZE + body.len());
    blob.extend_from_slice(salt.as_slice());
    blob.extend_from_slice(nonce.as_slice());
    blob.extend_from_slice(body);
    blob
}

/// Splits a blob into its fields, or rejects it as too short to have them.
pub fn split_blob<'a>(blob: &'a [u8]) -> (r: Result<BlobParts<'a>, OpenError>)
    ensures
        match r {
            Ok(parts) => {
                &&& blob@.len() >= HEADER_SIZE
                &&& parts.salt@ == blob_salt(blob@)
                &&& parts.nonce@ == blob_nonce(blob@)
                &&& parts.body@ == blob_body(blob@)
            },
            Err(e) => blob@.len() < HEADER_SIZE && e == OpenError::MalformedBlob,
        },
{
    if blob.len() < SALT_SIZE + NONCE_SIZE {
        return Err(OpenError::MalformedBlob);
    }
    let salt = &blob[0..SALT_SIZE];
    let nonce = &blob[SALT_SIZE..SALT_SIZE + NONCE_SIZE];
    let body = &blob[SALT_SIZE + NONCE_SIZE..blob.len()];
    Ok(BlobParts { salt, nonce, body })
}

/// Splitting undoes framing: the fields of a framed blob are the salt, the
/// nonce and the body it was made of.
pub proof fn lemma_fields_of_framed(salt: Seq<u8>, nonce: Seq<u8>, body: Seq<u8>)
    requires
        salt.len() == SALT_SIZE,
        nonce.len() == NONCE_SIZE,
    ensures
        framed(salt, nonce, body).len() == HEADER_SIZE + body.len(),
        blob_salt(framed(salt, nonce, body)) == salt,
        blob_nonce(framed(salt, nonce, body)) == nonce,
        blob_body(framed(salt, nonce, body)) == body,
{
    let blob = framed(salt, nonce, body);
    assert(blob_salt(blob) =~= salt);
    assert(blob_nonce(blob) =~= nonce);
    assert(blob_body(blob) =~= body);
}

/// Framing undoes splitting: a blob that has a header is its three fields
/// put together again.
pub proof fn lemma_framed_of_fields(blob: Seq<u8>)
    requires
        blob.len() >= HEADER_SIZE,
    ensures
        framed(blob_salt(blob), blob_nonce(blob), blob_body(blob)) == blob,
        blob_salt(blob).len() == SALT_SIZE,
        blob_nonce(blob).len() == NONCE_SIZE,
        blob_body(blob).len() == blob.len() - HEADER_SIZE,
{
    assert(framed(blob_salt(blob), blob_nonce(blob), blob_body(blob)) =~= blob);
}

} // verus!
