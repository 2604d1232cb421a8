//! The endorsement verification pipeline.
//!
//! [`verify_binary_endorsement`] chains the independent checks in a fixed,
//! fail-fast order: endorser signature first, then statement decoding, then
//! the validity window, then — only when a log public key is supplied —
//! transparency-log verification.  The first failure is returned and later
//! checks cannot mask it.  The ordering is a security policy: signature
//! authenticity gates everything else, and the transparency-log binding is
//! an additive trust requirement, opted into per call by supplying a
//! non-empty log public key.

use vstd::prelude::*;

use crate::codec::bytes_eq;
use crate::crypto::{signature_verdict, verify_signature_ecdsa, ecdsa_p256_verifies};
use crate::error::Error;
use crate::statement::{parse_statement, parse_statement_spec, validate_statement,
    validity_verdict};
use crate::transparency::{key_binding_verdict, log_signed_content, log_verdict, parse_log_entry,
    parse_log_entry_spec, verify_log_entry};

verus! {

/// The verdict of the whole pipeline, as a function of its inputs.
///
/// The checks apply in order — endorser signature, statement decoding,
/// validity window, transparency log — and the first failure is the
/// verdict.  The transparency-log check applies only when `log_key` is
/// non-empty; an empty `log_key` opts out of it entirely, whatever
/// `log_entry` holds.
pub open spec fn endorsement_verdict(
    now: int,
    endorsement: Seq<u8>,
    signature: Seq<u8>,
    log_entry: Seq<u8>,
    endorser_key: Seq<u8>,
    log_key: Seq<u8>,
) -> Result<(), Error> {
    match signature_verdict(endorsement, signature, endorser_key) {
        Err(e) => Err(e),
        Ok(_) => match parse_statement_spec(endorsement) {
            None => Err(Error::MalformedStatement),
            Some(st) => match validity_verdict(now, Seq::empty(), st) {
                Err(e) => Err(e),
                Ok(_) => if log_key.len() == 0 {
                    Ok(())
                } else {
                    log_verdict(log_entry, log_key, endorser_key)
                },
            },
        },
    }
}

/// Verifies a binary endorsement end to end.
///
/// The endorser's signature over the raw statement bytes is checked
/// unconditionally and first; a missing or invalid signature is always
/// fatal.  The statement is then decoded and its validity window enforced
/// at `now_utc_millis` with no exceptions.  Finally, when
/// `rekor_public_key` is non-empty, the transparency-log entry is verified
/// and its binding to `endorser_public_key` checked; when it is empty, the
/// log check is skipped no matter what `log_entry` holds.
pub fn verify_binary_endorsement(
    now_utc_millis: i64,
    endorsement: &[u8],
    signature: &[u8],
    log_entry: &[u8],
    endorser_public_key: &[u8],
    rekor_public_key: &[u8],
) -> (r: Result<(), Error>)
    ensures
        r == endorsement_verdict(
            now_utc_millis as int,
            endorsement@,
            signature@,
            log_entry@,
            endorser_public_key@,
            rekor_public_key@,
        ),
        signature@.len() == 0 ==> r == Err::<(), Error>(Error::InvalidSignature) || r == Err::<
            (),
            Error,
        >(Error::InvalidKey),
        endorser_public_key@.len() == 0 ==> r == Err::<(), Error>(Error::InvalidKey),
{
    match verify_signature_ecdsa(endorsement, signature, endorser_public_key) {
        Ok(_) => {},
        Err(e) => {
            return Err(e);
        },
    }
    let stmt = match parse_statement(endorsement) {
        Ok(stmt) => stmt,
        Err(e) => {
            return Err(e);
        },
    };
    let no_exceptions: [Vec<u8>; 0] = [];
    proof {
        assert(crate::statement::exceptions_view(no_exceptions@) =~= Seq::<Seq<u8>>::empty());
    }
    match validate_statement(now_utc_millis, &no_exceptions, &stmt) {
        Ok(_) => {},
        Err(e) => {
            return Err(e);
        },
    }
    if rekor_public_key.len() == 0 {
        return Ok(());
    }
    verify_log_entry(log_entry, rekor_public_key, endorser_public_key)
}

/// Checks that a transparency-log entry references exactly the given
/// endorser public key, for callers that have already verified the entry's
/// own signature.
///
/// Fails with [`Error::KeyMismatch`] exactly when the entry does not decode
/// or references a different key.
pub fn verify_endorser_public_key_ecdsa(log_entry: &[u8], endorser_public_key: &[u8]) -> (r: Result<
    (),
    Error,
>)
    ensures
        r == key_binding_verdict(log_entry@, endorser_public_key@),
{
    let entry = match parse_log_entry(log_entry) {
        Some(entry) => entry,
        None => {
            return Err(Error::KeyMismatch);
        },
    };
    if bytes_eq(entry.endorser_key.as_slice(), endorser_public_key) {
        Ok(())
    } else {
        Err(Error::KeyMismatch)
    }
}

/// The checks are fail-fast and signature authenticity gates everything
/// else: when the signature check fails, its error is the verdict, whatever
/// the clock value, the log entry and the log key hold — no later check can
/// mask it.
pub proof fn lemma_signature_failure_is_fatal(
    now: int,
    endorsement: Seq<u8>,
    signature: Seq<u8>,
    log_entry: Seq<u8>,
    endorser_key: Seq<u8>,
    log_key: Seq<u8>,
)
    requires
        signature_verdict(endorsement, signature, endorser_key) is Err,
    ensures
        endorsement_verdict(now, endorsement, signature, log_entry, endorser_key, log_key) == Err::<
            (),
            Error,
        >(signature_verdict(endorsement, signature, endorser_key)->Err_0),
{
}

/// With no log public key the verdict does not depend on the log entry at
/// all: any two entries — present, absent, or malformed — yield the same
/// verdict.
pub proof fn lemma_no_log_key_ignores_entry(
    now: int,
    endorsement: Seq<u8>,
    signature: Seq<u8>,
    entry1: Seq<u8>,
    entry2: Seq<u8>,
    endorser_key: Seq<u8>,
)
    ensures
        endorsement_verdict(now, endorsement, signature, entry1, endorser_key, Seq::empty())
            == endorsement_verdict(now, endorsement, signature, entry2, endorser_key, Seq::empty()),
{
}

/// With no log public key the pipeline succeeds exactly when the signature
/// and time checks pass.
pub proof fn lemma_no_log_key_success(
    now: int,
    endorsement: Seq<u8>,
    signature: Seq<u8>,
    log_entry: Seq<u8>,
    endorser_key: Seq<u8>,
)
    requires
        signature_verdict(endorsement, signature, endorser_key) == Ok::<(), Error>(()),
        parse_statement_spec(endorsement) is Some,
        validity_verdict(now, Seq::empty(), parse_statement_spec(endorsement)->Some_0) == Ok::<
            (),
            Error,
        >(()),
    ensures
        endorsement_verdict(now, endorsement, signature, log_entry, endorser_key, Seq::empty())
            == Ok::<(), Error>(()),
{
}

/// With a log public key but no log entry the pipeline never succeeds, and
/// when every earlier check passes it reports exactly the missing entry.
pub proof fn lemma_missing_log_entry(
    now: int,
    endorsement: Seq<u8>,
    signature: Seq<u8>,
    endorser_key: Seq<u8>,
    log_key: Seq<u8>,
)
    requires
        log_key.len() > 0,
    ensures
        endorsement_verdict(now, endorsement, signature, Seq::empty(), endorser_key, log_key)
            != Ok::<(), Error>(()),
        ({
            signature_verdict(endorsement, signature, endorser_key) == Ok::<(), Error>(())
                && parse_statement_spec(endorsement) is Some
                && validity_verdict(now, Seq::empty(), parse_statement_spec(endorsement)->Some_0)
                == Ok::<(), Error>(())
        }) ==> endorsement_verdict(now, endorsement, signature, Seq::empty(), endorser_key, log_key)
            == Err::<(), Error>(Error::MissingLogEntry),
{
}

/// When every earlier check passes and the log entry decodes but its
/// signature does not verify under the supplied log public key — for
/// instance because that key is not the log's actual signing key — the
/// pipeline reports exactly an invalid log signature.
pub proof fn lemma_wrong_log_key_rejected(
    now: int,
    endorsement: Seq<u8>,
    signature: Seq<u8>,
    log_entry: Seq<u8>,
    endorser_key: Seq<u8>,
    log_key: Seq<u8>,
)
    requires
        log_key.len() > 0,
        log_entry.len() > 0,
        signature_verdict(endorsement, signature, endorser_key) == Ok::<(), Error>(()),
        parse_statement_spec(endorsement) is Some,
        validity_verdict(now, Seq::empty(), parse_statement_spec(endorsement)->Some_0) == Ok::<
            (),
            Error,
        >(()),
        parse_log_entry_spec(log_entry) is Some,
        !ecdsa_p256_verifies(
            log_signed_content(parse_log_entry_spec(log_entry)->Some_0),
            parse_log_entry_spec(log_entry)->Some_0.log_signature,
            log_key,
        ),
    ensures
        endorsement_verdict(now, endorsement, signature, log_entry, endorser_key, log_key) == Err::<
            (),
            Error,
        >(Error::InvalidLogSignature),
{
}

/// Verdicts are a function of the inputs alone: two verdicts of identical
/// inputs are identical, so repeating a call can never change the outcome.
pub proof fn lemma_verdict_deterministic(
    now: int,
    endorsement: Seq<u8>,
    signature: Seq<u8>,
    log_entry: Seq<u8>,
    endorser_key: Seq<u8>,
    log_key: Seq<u8>,
    r1: Result<(), Error>,
    r2: Result<(), Error>,
)
    requires
        r1 == endorsement_verdict(now, endorsement, signature, log_entry, endorser_key, log_key),
        r2 == endorsement_verdict(now, endorsement, signature, log_entry, endorser_key, log_key),
    ensures
        r1 == r2,
{
}

} // verus!
