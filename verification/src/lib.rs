//! Verification of signed endorsement statements.
//!
//! An endorsement statement is a claim, signed by an endorser, that a
//! software artifact identified by its digest satisfies some policy within a
//! validity window.  This crate decides whether such a claim should be
//! trusted: it checks the endorser's signature over the raw statement bytes,
//! decodes the statement, enforces its validity window against a
//! caller-supplied clock value, and, when a transparency-log key is
//! supplied, checks that the statement was publicly logged and that the log
//! entry is bound to the same endorser key.
//!
//! The pipeline lives in [`endorsement`], on top of [`statement`] (decoding
//! and temporal validation), [`crypto`] (ECDSA P-256 signature checking),
//! [`transparency`] (log-entry decoding and verification) and [`codec`] (the
//! shared byte-level framing).  Every check is a pure function of its
//! arguments — the current time is always a parameter, never read from a
//! clock — so a verdict depends on the inputs alone.
//!
//! Alongside the pipeline, [`encryption`] offers AES-256-GCM sealing of byte
//! buffers, and [`buffer`] small byte-buffer handles for callers that pass
//! byte data across an API boundary.

pub mod buffer;
pub mod codec;
pub mod crypto;
pub mod encryption;
pub mod endorsement;
mod error;
pub mod statement;
pub mod transparency;

pub use error::CryptoError;
pub use error::Error;
