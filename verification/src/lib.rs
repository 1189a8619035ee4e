//! Password-protected sealing of byte strings.
//!
//! A plaintext is sealed under a password into a self-contained blob
//! `salt ‖ nonce ‖ ciphertext ‖ tag`: the key comes from the password and a
//! fresh salt by PBKDF2-HMAC-SHA256, the body from AES-256-GCM under that key
//! and a fresh nonce. Opening needs only the blob and the password.
//!
//! - `kdf`: the key of a password and a salt.
//! - `layout`: the byte layout of a blob.
//! - `cipher`: the authenticated cipher.
//! - `entropy`: random salts and nonces.
//! - `codec`: sealing and opening.
//! - `laws`: what holds of sealing and opening.
//! - `upload`: what an upload must hold before its file is sealed.

pub mod cipher;
pub mod codec;
mod entropy;
pub mod error;
pub mod kdf;
pub mod laws;
pub mod layout;
pub mod upload;

pub use codec::{decrypt_data, encrypt_data};
pub use error::{OpenError, SealError};
pub use kdf::derive_key;
