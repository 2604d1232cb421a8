//! Decoding and verification of transparency-log entries.
//!
//! A log entry records that an endorsement statement was published in a
//! transparency log.  It is serialized in the tag-length-value framing of
//! [`crate::codec`] with these tags, each required and non-empty:
//!
//! - `1`: the entry body — the logged content;
//! - `2`: the log's signature, DER-encoded ECDSA P-256;
//! - `3`: the SEC1-encoded endorser public key the entry is bound to.
//!
//! Unknown tags are ignored; when a tag repeats, the last occurrence wins.
//! The log signs the entry's signed content: the eight-byte big-endian
//! length of the endorser key, then the endorser key, then the body.  The
//! key is under the signature, so a validly signed entry cannot be re-bound
//! to a different endorser key.

use vstd::prelude::*;

use crate::codec::{fields_view, tlv_fields, FieldView, parse_tlv};
use crate::crypto::ecdsa_p256_verifies;
use crate::error::Error;

verus! {

/// A parsed transparency-log entry.
pub struct LogEntry {
    /// The logged content.
    pub body: Vec<u8>,
    /// The log's signature over the entry's signed content.
    pub log_signature: Vec<u8>,
    /// The endorser public key the entry is bound to.
    pub endorser_key: Vec<u8>,
}

/// The mathematical image of a log entry.
#[verifier::ext_equal]
pub ghost struct LogEntryView {
    pub body: Seq<u8>,
    pub log_signature: Seq<u8>,
    pub endorser_key: Seq<u8>,
}

impl View for LogEntry {
    type V = LogEntryView;

    open spec fn view(&self) -> LogEntryView {
        LogEntryView {
            body: self.body@,
            log_signature: self.log_signature@,
            endorser_key: self.endorser_key@,
        }
    }
}

/// The field values a log entry has before any field is decoded.
pub open spec fn log_entry_defaults() -> LogEntryView {
    LogEntryView { body: Seq::empty(), log_signature: Seq::empty(), endorser_key: Seq::empty() }
}

/// The log entry obtained from `acc` by applying one decoded field.
pub open spec fn apply_log_field(acc: LogEntryView, field: FieldView) -> LogEntryView {
    if field.tag == 1 {
        LogEntryView { body: field.value, ..acc }
    } else if field.tag == 2 {
        LogEntryView { log_signature: field.value, ..acc }
    } else if field.tag == 3 {
        LogEntryView { endorser_key: field.value, ..acc }
    } else {
        acc
    }
}

/// The log entry obtained from `acc` by applying each decoded field in
/// order.
pub open spec fn apply_log_fields(fields: Seq<FieldView>, acc: LogEntryView) -> LogEntryView
    decreases fields.len(),
{
    if fields.len() == 0 {
        acc
    } else {
        apply_log_fields(fields.skip(1), apply_log_field(acc, fields[0]))
    }
}

/// Whether a fully decoded log entry is structurally valid: every field is
/// present and non-empty.
pub open spec fn log_entry_well_formed(e: LogEntryView) -> bool {
    e.body.len() > 0 && e.log_signature.len() > 0 && e.endorser_key.len() > 0
}

/// The log entry denoted by `bytes`, or `None` when the bytes are
/// malformed.
pub open spec fn parse_log_entry_spec(bytes: Seq<u8>) -> Option<LogEntryView> {
    match tlv_fields(bytes) {
        Some(fields) => {
            let e = apply_log_fields(fields, log_entry_defaults());
            if log_entry_well_formed(e) {
                Some(e)
            } else {
                None
            }
        },
        None => None,
    }
}

/// The eight bytes of a 64-bit integer in big-endian order.
pub open spec fn u64_be_bytes(n: int) -> Seq<u8> {
    seq![
        ((n / 0x100_0000_0000_0000) % 0x100) as u8,
        ((n / 0x1_0000_0000_0000) % 0x100) as u8,
        ((n / 0x100_0000_0000) % 0x100) as u8,
        ((n / 0x1_0000_0000) % 0x100) as u8,
        ((n / 0x100_0000) % 0x100) as u8,
        ((n / 0x1_0000) % 0x100) as u8,
        ((n / 0x100) % 0x100) as u8,
        (n % 0x100) as u8,
    ]
}

/// The content the log signs: the length-prefixed endorser key, then the
/// body.
pub open spec fn log_signed_content(e: LogEntryView) -> Seq<u8> {
    u64_be_bytes(e.endorser_key.len() as int) + e.endorser_key + e.body
}

/// Appends a byte slice to a vector.
fn append_bytes(dst: &mut Vec<u8>, src: &[u8])
    ensures
        final(dst)@ == old(dst)@ + src@,
{
    let n = src.len();
    let mut i: usize = 0;
    proof {
        assert(dst@ =~= old(dst)@ + src@.subrange(0, 0));
    }
    while i < n
        invariant
            i <= n,
            n == src@.len(),
            dst@ == old(dst)@ + src@.subrange(0, i as int),
        decreases n - i,
    {
        dst.push(src[i]);
        proof {
            assert(dst@ =~= old(dst)@ + src@.subrange(0, i as int + 1));
        }
        i = i + 1;
    }
    proof {
        assert(old(dst)@ + src@.subrange(0, n as int) =~= old(dst)@ + src@);
    }
}

/// Assembles the content the log signs for this entry.
fn build_signed_content(entry: &LogEntry) -> (r: Vec<u8>)
    ensures
        r@ == log_signed_content(entry@),
{
    let len = entry.endorser_key.len() as u64;
    let mut msg: Vec<u8> = Vec::new();
    msg.push(((len / 0x100_0000_0000_0000) % 0x100) as u8);
    msg.push(((len / 0x1_0000_0000_0000) % 0x100) as u8);
    msg.push(((len / 0x100_0000_0000) % 0x100) as u8);
    msg.push(((len / 0x1_0000_0000) % 0x100) as u8);
    msg.push(((len / 0x100_0000) % 0x100) as u8);
    msg.push(((len / 0x1_0000) % 0x100) as u8);
    msg.push(((len / 0x100) % 0x100) as u8);
    msg.push((len % 0x100) as u8);
    proof {
        assert(msg@ =~= u64_be_bytes(entry.endorser_key.len() as int));
    }
    append_bytes(&mut msg, entry.endorser_key.as_slice());
    append_bytes(&mut msg, entry.body.as_slice());
    proof {
        assert(msg@ =~= log_signed_content(entry@));
    }
    msg
}

/// Decodes a transparency-log entry, or returns `None` when the bytes are
/// malformed.
pub fn parse_log_entry(bytes: &[u8]) -> (r: Option<LogEntry>)
    ensures
        match r {
            Some(entry) => parse_log_entry_spec(bytes@) == Some(entry@),
            None => parse_log_entry_spec(bytes@) is None,
        },
{
    let fields = match parse_tlv(bytes) {
        Some(fields) => fields,
        None => {
            return None;
        },
    };
    let ghost fvs = fields_view(fields@);
    let mut entry = LogEntry { body: Vec::new(), log_signature: Vec::new(), endorser_key: Vec::new() };
    proof {
        assert(entry@ =~= log_entry_defaults());
        assert(fvs.skip(0) =~= fvs);
    }
    let n = fields.len();
    let mut j: usize = 0;
    while j < n
        invariant
            j <= n,
            n == fields@.len(),
            fvs == fields_view(fields@),
            apply_log_fields(fvs, log_entry_defaults()) == apply_log_fields(
                fvs.skip(j as int),
                entry@,
            ),
        decreases n - j,
    {
        let ghost rest = fvs.skip(j as int);
        proof {
            assert(rest[0] == fvs[j as int]);
            assert(fvs[j as int] == fields@[j as int]@);
        }
        let ghost prev = entry@;
        let field = &fields[j];
        if field.tag == 1 {
            entry.body = vstd::slice::slice_to_vec(field.value.as_slice());
        } else if field.tag == 2 {
            entry.log_signature = vstd::slice::slice_to_vec(field.value.as_slice());
        } else if field.tag == 3 {
            entry.endorser_key = vstd::slice::slice_to_vec(field.value.as_slice());
        }
        proof {
            assert(entry@ =~= apply_log_field(prev, rest[0]));
            assert(fvs.skip(j as int + 1) =~= rest.skip(1));
        }
        j = j + 1;
    }
    proof {
        assert(fvs.skip(n as int) =~= Seq::<FieldView>::empty());
    }
    if entry.body.len() == 0 || entry.log_signature.len() == 0 || entry.endorser_key.len() == 0 {
        return None;
    }
    Some(entry)
}

/// The outcome of transparency-log verification: the entry must be present
/// and decodable, its signature must verify under the log's key, and it
/// must be bound to the endorser key under verification.
pub open spec fn log_verdict(entry_bytes: Seq<u8>, log_key: Seq<u8>, endorser_key: Seq<u8>) -> Result<
    (),
    Error,
> {
    if entry_bytes.len() == 0 {
        Err(Error::MissingLogEntry)
    } else {
        match parse_log_entry_spec(entry_bytes) {
            None => Err(Error::InvalidLogSignature),
            Some(e) => {
                if !ecdsa_p256_verifies(log_signed_content(e), e.log_signature, log_key) {
                    Err(Error::InvalidLogSignature)
                } else if e.endorser_key != endorser_key {
                    Err(Error::KeyMismatch)
                } else {
                    Ok(())
                }
            },
        }
    }
}

/// Verifies a transparency-log entry: the entry must be present and
/// decodable, its signature must verify under the log's public key, and it
/// must be bound to `endorser_public_key`.
///
/// Fails with [`Error::MissingLogEntry`] exactly when `log_entry` is empty,
/// with [`Error::InvalidLogSignature`] exactly when the entry does not
/// decode or its signature does not verify under `log_public_key` (in
/// particular whenever that key is malformed), and with
/// [`Error::KeyMismatch`] exactly when the entry is validly signed but
/// references a different endorser key.
pub fn verify_log_entry(log_entry: &[u8], log_public_key: &[u8], endorser_public_key: &[u8]) -> (r:
    Result<(), Error>)
    ensures
        r == log_verdict(log_entry@, log_public_key@, endorser_public_key@),
{
    if log_entry.len() == 0 {
        return Err(Error::MissingLogEntry);
    }
    let entry = match parse_log_entry(log_entry) {
        Some(entry) => entry,
        None => {
            return Err(Error::InvalidLogSignature);
        },
    };
    let content = build_signed_content(&entry);
    if !crate::crypto::ecdsa_verify_check(
        content.as_slice(),
        entry.log_signature.as_slice(),
        log_public_key,
    ) {
        return Err(Error::InvalidLogSignature);
    }
    if !crate::codec::bytes_eq(entry.endorser_key.as_slice(), endorser_public_key) {
        return Err(Error::KeyMismatch);
    }
    Ok(())
}

/// The outcome of the standalone key-binding check: the entry must decode
/// and must reference exactly the given endorser key.
pub open spec fn key_binding_verdict(entry_bytes: Seq<u8>, endorser_key: Seq<u8>) -> Result<
    (),
    Error,
> {
    match parse_log_entry_spec(entry_bytes) {
        None => Err(Error::KeyMismatch),
        Some(e) => {
            if e.endorser_key == endorser_key {
                Ok(())
            } else {
                Err(Error::KeyMismatch)
            }
        },
    }
}

} // verus!
