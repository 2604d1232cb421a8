use vstd::prelude::*;

verus! {

/// Why a verification call rejected its input.
///
/// Every check of the pipeline either succeeds or reports exactly one of
/// these kinds; the orchestrator never coalesces distinct kinds, so a caller
/// can always tell which check failed.
#[derive(Clone, Copy, Debug, PartialEq, Eq, Structural)]
pub enum Error {
    /// The statement bytes do not decode to a structurally valid statement.
    MalformedStatement,
    /// The endorser public key is empty or not a well-formed key encoding.
    InvalidKey,
    /// The key is well formed but the signature does not verify.
    InvalidSignature,
    /// The clock value lies before the statement's validity window.
    TooEarly,
    /// The clock value lies after the statement's validity window.
    TooLate,
    /// Log verification was requested but no log entry was supplied.
    MissingLogEntry,
    /// The log entry is malformed or its signature does not verify against
    /// the log's public key.
    InvalidLogSignature,
    /// The log entry is bound to a different endorser public key.
    KeyMismatch,
}

/// Why an authenticated-encryption call failed.
#[derive(Clone, Copy, Debug, PartialEq, Eq, Structural)]
pub enum CryptoError {
    /// The cipher rejected the message.
    EncryptionFailed,
    /// The ciphertext did not authenticate under the given key and nonce.
    DecryptionFailed,
}

} // verus!
