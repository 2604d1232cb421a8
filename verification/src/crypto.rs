//! ECDSA P-256 signature checking.
//!
//! The cryptographic primitives come from the `p256` crate and are not
//! verified; the two wrappers below state what the primitives decide, and
//! everything above them is proved against those statements.

use vstd::prelude::*;

use p256::ecdsa::signature::Verifier;
use p256::ecdsa::{Signature, VerifyingKey};

use crate::error::Error;

verus! {

/// Whether a byte string is a well-formed SEC1 encoding of a P-256 public
/// key.
pub uninterp spec fn sec1_key_well_formed(key: Seq<u8>) -> bool;

/// Whether a DER-encoded ECDSA P-256 signature verifies over a message
/// under a SEC1-encoded public key.
pub uninterp spec fn ecdsa_p256_verifies(message: Seq<u8>, signature: Seq<u8>, key: Seq<u8>) -> bool;

/// Relies on `p256::ecdsa::VerifyingKey::from_sec1_bytes`: it accepts a byte
/// string exactly when the string is a well-formed SEC1 encoding of a P-256
/// point (so it rejects the empty string, which carries no SEC1 tag byte).
#[verifier::external_body]
fn sec1_key_check(key: &[u8]) -> (r: bool)
    ensures
        r == sec1_key_well_formed(key@),
        key@.len() == 0 ==> !r,
{
    VerifyingKey::from_sec1_bytes(key).is_ok()
}

/// Relies on `p256::ecdsa::VerifyingKey::from_sec1_bytes`,
/// `p256::ecdsa::Signature::from_der` and the `Verifier` impl of
/// `p256::ecdsa::VerifyingKey`: the outcome is a deterministic function of
/// the message, signature and key bytes alone; a malformed key never
/// verifies anything, and an empty signature is not DER and never verifies.
#[verifier::external_body]
pub(crate) fn ecdsa_verify_check(message: &[u8], signature: &[u8], key: &[u8]) -> (r: bool)
    ensures
        r == ecdsa_p256_verifies(message@, signature@, key@),
        !sec1_key_well_formed(key@) ==> !r,
        signature@.len() == 0 ==> !r,
{
    let verifying_key = match VerifyingKey::from_sec1_bytes(key) {
        Ok(verifying_key) => verifying_key,
        Err(_) => {
            return false;
        },
    };
    let parsed = match Signature::from_der(signature) {
        Ok(parsed) => parsed,
        Err(_) => {
            return false;
        },
    };
    verifying_key.verify(message, &parsed).is_ok()
}

/// The outcome of checking a detached signature over a message: the key must
/// be well formed, then the signature must verify.
pub open spec fn signature_verdict(message: Seq<u8>, signature: Seq<u8>, key: Seq<u8>) -> Result<
    (),
    Error,
> {
    if !sec1_key_well_formed(key) {
        Err(Error::InvalidKey)
    } else if !ecdsa_p256_verifies(message, signature, key) {
        Err(Error::InvalidSignature)
    } else {
        Ok(())
    }
}

/// Verifies a detached ECDSA P-256 signature over `message` against a
/// SEC1-encoded public key.
///
/// Fails with [`Error::InvalidKey`] exactly when the key bytes are empty or
/// are not a well-formed key encoding — malformed key material is rejected
/// before any signature math runs.  Fails with [`Error::InvalidSignature`]
/// exactly when the key is well formed but the signature does not verify;
/// in particular an empty signature is always rejected.
pub fn verify_signature_ecdsa(message: &[u8], signature: &[u8], public_key: &[u8]) -> (r: Result<
    (),
    Error,
>)
    ensures
        r == signature_verdict(message@, signature@, public_key@),
        public_key@.len() == 0 ==> r == Err::<(), Error>(Error::InvalidKey),
        signature@.len() == 0 ==> r is Err,
{
    if !sec1_key_check(public_key) {
        return Err(Error::InvalidKey);
    }
    if !ecdsa_verify_check(message, signature, public_key) {
        return Err(Error::InvalidSignature);
    }
    Ok(())
}

} // verus!
