//! Authenticated encryption of byte buffers with AES-256-GCM.
//!
//! The cipher comes from the `aes-gcm` crate and is not verified; the
//! wrappers below state what it guarantees about lengths and determinism,
//! and the public functions are proved against those statements.

use vstd::prelude::*;

use aes_gcm::aead::{Aead, Generate, Nonce};
use aes_gcm::{Aes256Gcm, KeyInit};

use crate::error::CryptoError;

verus! {

/// The ciphertext AES-256-GCM produces for a key, nonce and message, or
/// `None` when the cipher rejects the input.
pub uninterp spec fn aes256_gcm_seal(key: Seq<u8>, nonce: Seq<u8>, message: Seq<u8>) -> Option<
    Seq<u8>,
>;

/// The plaintext AES-256-GCM recovers from a key, nonce and ciphertext, or
/// `None` when authentication fails.
pub uninterp spec fn aes256_gcm_open(key: Seq<u8>, nonce: Seq<u8>, ciphertext: Seq<u8>) -> Option<
    Seq<u8>,
>;

/// Relies on `Aes256Gcm::generate_nonce` by way of the `Generate` impl of
/// the nonce array: the result is drawn from the operating system's
/// randomness source and is always 12 bytes, the AES-GCM nonce size.
#[verifier::external_body]
pub fn generate_nonce() -> (r: Vec<u8>)
    ensures
        r@.len() == 12,
{
    Nonce::<Aes256Gcm>::generate().to_vec()
}

/// Relies on the `Aead` impl of `Aes256Gcm`: encryption is a deterministic
/// function of key, nonce and message, and a produced ciphertext is the
/// message followed by the 16-byte authentication tag.
#[verifier::external_body]
fn aes256_gcm_encrypt(key: &[u8], nonce: &[u8], message: &[u8]) -> (r: Option<Vec<u8>>)
    requires
        key@.len() == 32,
        nonce@.len() == 12,
    ensures
        match r {
            Some(ciphertext) => aes256_gcm_seal(key@, nonce@, message@) == Some(ciphertext@)
                && ciphertext@.len() == message@.len() + 16,
            None => aes256_gcm_seal(key@, nonce@, message@) is None,
        },
{
    let cipher = match Aes256Gcm::new_from_slice(key) {
        Ok(cipher) => cipher,
        Err(_) => {
            return None;
        },
    };
    let nonce_array = match Nonce::<Aes256Gcm>::try_from(nonce) {
        Ok(nonce_array) => nonce_array,
        Err(_) => {
            return None;
        },
    };
    cipher.encrypt(&nonce_array, message).ok()
}

/// Relies on the `Aead` impl of `Aes256Gcm`: decryption is a deterministic
/// function of key, nonce and ciphertext, and a recovered plaintext is the
/// ciphertext without its 16-byte authentication tag.
#[verifier::external_body]
fn aes256_gcm_decrypt(key: &[u8], nonce: &[u8], ciphertext: &[u8]) -> (r: Option<Vec<u8>>)
    requires
        key@.len() == 32,
        nonce@.len() == 12,
    ensures
        match r {
            Some(message) => aes256_gcm_open(key@, nonce@, ciphertext@) == Some(message@)
                && message@.len() + 16 == ciphertext@.len(),
            None => aes256_gcm_open(key@, nonce@, ciphertext@) is None,
        },
{
    let cipher = match Aes256Gcm::new_from_slice(key) {
        Ok(cipher) => cipher,
        Err(_) => {
            return None;
        },
    };
    let nonce_array = match Nonce::<Aes256Gcm>::try_from(nonce) {
        Ok(nonce_array) => nonce_array,
        Err(_) => {
            return None;
        },
    };
    cipher.decrypt(&nonce_array, ciphertext).ok()
}

/// Encrypts a message with AES-256-GCM.
///
/// The key must be 32 bytes and the nonce 12 bytes.  Succeeds exactly when
/// the cipher accepts the message, and then returns the ciphertext the
/// cipher deterministically assigns to this key, nonce and message: the
/// message's length plus a 16-byte tag.
pub fn encrypt(key: &[u8], nonce: &[u8], message: &[u8]) -> (r: Result<Vec<u8>, CryptoError>)
    requires
        key@.len() == 32,
        nonce@.len() == 12,
    ensures
        match r {
            Ok(ciphertext) => aes256_gcm_seal(key@, nonce@, message@) == Some(ciphertext@)
                && ciphertext@.len() == message@.len() + 16,
            Err(e) => e == CryptoError::EncryptionFailed && aes256_gcm_seal(key@, nonce@, message@)
                is None,
        },
{
    match aes256_gcm_encrypt(key, nonce, message) {
        Some(ciphertext) => Ok(ciphertext),
        None => Err(CryptoError::EncryptionFailed),
    }
}

/// Decrypts an AES-256-GCM ciphertext.
///
/// The key must be 32 bytes and the nonce 12 bytes.  Succeeds exactly when
/// the ciphertext authenticates under this key and nonce, and then returns
/// the plaintext the cipher deterministically assigns to them: the
/// ciphertext's length less the 16-byte tag.
pub fn decrypt(key: &[u8], nonce: &[u8], ciphertext: &[u8]) -> (r: Result<Vec<u8>, CryptoError>)
    requires
        key@.len() == 32,
        nonce@.len() == 12,
    ensures
        match r {
            Ok(message) => aes256_gcm_open(key@, nonce@, ciphertext@) == Some(message@)
                && message@.len() + 16 == ciphertext@.len(),
            Err(e) => e == CryptoError::DecryptionFailed && aes256_gcm_open(key@, nonce@, ciphertext@)
                is None,
        },
{
    match aes256_gcm_decrypt(key, nonce, ciphertext) {
        Some(message) => Ok(message),
        None => Err(CryptoError::DecryptionFailed),
    }
}

} // verus!
