//! Decoding and temporal validation of endorsement statements.
//!
//! A statement is serialized in the tag-length-value framing of [`crate::codec`].
//! The recognized tags are:
//!
//! - `1`: the subject digest (required, non-empty);
//! - `2`: the subject identifier (default: empty);
//! - `3`: `not_before`, eight big-endian bytes of milliseconds since the
//!   epoch (default: `0`);
//! - `4`: `not_after`, same encoding (default: `i64::MAX`);
//! - `5`: `issued_at`, same encoding (default: `0`);
//! - `6`: the opaque predicate payload (default: empty).
//!
//! Unknown tags are ignored; when a tag repeats, the last occurrence wins.
//! A timestamp field whose value is not exactly eight bytes, or whose value
//! exceeds `i64::MAX`, is a hard decode failure, as are a missing or empty
//! subject digest and an inverted validity window.

use vstd::prelude::*;
use vstd::slice::slice_to_vec;

use crate::codec::{be_u64, be_u64_at, bytes_eq, tlv_fields, fields_view, Field, FieldView,
    parse_tlv};
use crate::error::Error;

verus! {

/// A parsed endorsement claim.
pub struct Statement {
    /// Digest of the endorsed artifact.
    pub subject_digest: Vec<u8>,
    /// Identifier of the endorsed subject, used by the exception list.
    pub subject_id: Vec<u8>,
    /// When the statement was issued, in milliseconds since the epoch.
    pub issued_at: i64,
    /// Start of the validity window, in milliseconds since the epoch.
    pub not_before: i64,
    /// End of the validity window, in milliseconds since the epoch.
    pub not_after: i64,
    /// Opaque policy predicate payload.
    pub predicate: Vec<u8>,
}

/// The mathematical image of a statement.
#[verifier::ext_equal]
pub ghost struct StatementView {
    pub subject_digest: Seq<u8>,
    pub subject_id: Seq<u8>,
    pub issued_at: int,
    pub not_before: int,
    pub not_after: int,
    pub predicate: Seq<u8>,
}

impl View for Statement {
    type V = StatementView;

    open spec fn view(&self) -> StatementView {
        StatementView {
            subject_digest: self.subject_digest@,
            subject_id: self.subject_id@,
            issued_at: self.issued_at as int,
            not_before: self.not_before as int,
            not_after: self.not_after as int,
            predicate: self.predicate@,
        }
    }
}

/// The field values a statement has before any field is decoded.
pub open spec fn statement_defaults() -> StatementView {
    StatementView {
        subject_digest: Seq::empty(),
        subject_id: Seq::empty(),
        issued_at: 0,
        not_before: 0,
        not_after: i64::MAX as int,
        predicate: Seq::empty(),
    }
}

/// Whether a field value is a well-formed timestamp: eight big-endian bytes
/// denoting a value that fits a 64-bit signed integer.
pub open spec fn timestamp_ok(value: Seq<u8>) -> bool {
    value.len() == 8 && be_u64(value) <= i64::MAX as int
}

/// The statement obtained from `acc` by applying one decoded field, or
/// `None` when the field is a malformed timestamp.
pub open spec fn apply_field(acc: StatementView, field: FieldView) -> Option<StatementView> {
    if field.tag == 1 {
        Some(StatementView { subject_digest: field.value, ..acc })
    } else if field.tag == 2 {
        Some(StatementView { subject_id: field.value, ..acc })
    } else if field.tag == 3 {
        if timestamp_ok(field.value) {
            Some(StatementView { not_before: be_u64(field.value), ..acc })
        } else {
            None
        }
    } else if field.tag == 4 {
        if timestamp_ok(field.value) {
            Some(StatementView { not_after: be_u64(field.value), ..acc })
        } else {
            None
        }
    } else if field.tag == 5 {
        if timestamp_ok(field.value) {
            Some(StatementView { issued_at: be_u64(field.value), ..acc })
        } else {
            None
        }
    } else if field.tag == 6 {
        Some(StatementView { predicate: field.value, ..acc })
    } else {
        Some(acc)
    }
}

/// The statement obtained from `acc` by applying each decoded field in
/// order.
pub open spec fn apply_fields(fields: Seq<FieldView>, acc: StatementView) -> Option<StatementView>
    decreases fields.len(),
{
    if fields.len() == 0 {
        Some(acc)
    } else {
        match apply_field(acc, fields[0]) {
            Some(acc2) => apply_fields(fields.skip(1), acc2),
            None => None,
        }
    }
}

/// Whether a fully decoded statement is structurally valid: the subject
/// digest is present and the validity window is well-ordered.
pub open spec fn statement_well_formed(st: StatementView) -> bool {
    st.subject_digest.len() > 0 && st.not_before <= st.not_after
}

/// The statement denoted by `bytes`, or `None` when the bytes are
/// malformed.
pub open spec fn parse_statement_spec(bytes: Seq<u8>) -> Option<StatementView> {
    match tlv_fields(bytes) {
        Some(fields) => match apply_fields(fields, statement_defaults()) {
            Some(st) => if statement_well_formed(st) {
                Some(st)
            } else {
                None
            },
            None => None,
        },
        None => None,
    }
}

/// Applies one decoded field to the statement under construction; returns
/// false when the field is a malformed timestamp.
fn apply_field_exec(st: &mut Statement, field: &Field) -> (ok: bool)
    ensures
        match apply_field(old(st)@, field@) {
            Some(next) => ok && final(st)@ == next,
            None => !ok && final(st)@ == old(st)@,
        },
{
    if field.tag == 1 {
        st.subject_digest = slice_to_vec(field.value.as_slice());
        proof {
            assert(st@ =~= apply_field(old(st)@, field@)->Some_0);
        }
        true
    } else if field.tag == 2 {
        st.subject_id = slice_to_vec(field.value.as_slice());
        proof {
            assert(st@ =~= apply_field(old(st)@, field@)->Some_0);
        }
        true
    } else if field.tag == 3 || field.tag == 4 || field.tag == 5 {
        if field.value.len() != 8 {
            return false;
        }
        let raw = be_u64_at(field.value.as_slice(), 0);
        proof {
            assert(field.value@.subrange(0, 8) =~= field.value@);
        }
        if raw > 0x7fff_ffff_ffff_ffff {
            return false;
        }
        let ts = raw as i64;
        if field.tag == 3 {
            st.not_before = ts;
        } else if field.tag == 4 {
            st.not_after = ts;
        } else {
            st.issued_at = ts;
        }
        proof {
            assert(st@ =~= apply_field(old(st)@, field@)->Some_0);
        }
        true
    } else if field.tag == 6 {
        st.predicate = slice_to_vec(field.value.as_slice());
        proof {
            assert(st@ =~= apply_field(old(st)@, field@)->Some_0);
        }
        true
    } else {
        true
    }
}

/// Decodes an endorsement statement, or fails with
/// [`Error::MalformedStatement`] exactly when the bytes do not denote a
/// structurally valid statement.
pub fn parse_statement(bytes: &[u8]) -> (r: Result<Statement, Error>)
    ensures
        match r {
            Ok(st) => parse_statement_spec(bytes@) == Some(st@),
            Err(e) => e == Error::MalformedStatement && parse_statement_spec(bytes@) is None,
        },
{
    let fields = match parse_tlv(bytes) {
        Some(fields) => fields,
        None => {
            return Err(Error::MalformedStatement);
        },
    };
    let ghost fvs = fields_view(fields@);
    let mut st = Statement {
        subject_digest: Vec::new(),
        subject_id: Vec::new(),
        issued_at: 0,
        not_before: 0,
        not_after: i64::MAX,
        predicate: Vec::new(),
    };
    proof {
        assert(st@ =~= statement_defaults());
        assert(fvs.skip(0) =~= fvs);
    }
    let n = fields.len();
    let mut j: usize = 0;
    while j < n
        invariant
            j <= n,
            n == fields@.len(),
            fvs == fields_view(fields@),
            tlv_fields(bytes@) == Some(fvs),
            apply_fields(fvs, statement_defaults()) == apply_fields(fvs.skip(j as int), st@),
        decreases n - j,
    {
        let ghost rest = fvs.skip(j as int);
        proof {
            assert(rest[0] == fvs[j as int]);
            assert(fvs[j as int] == fields@[j as int]@);
        }
        let ok = apply_field_exec(&mut st, &fields[j]);
        if !ok {
            proof {
                assert(apply_fields(rest, st@) is None);
            }
            return Err(Error::MalformedStatement);
        }
        proof {
            assert(fvs.skip(j as int + 1) =~= rest.skip(1));
        }
        j = j + 1;
    }
    proof {
        assert(fvs.skip(n as int) =~= Seq::<FieldView>::empty());
        assert(apply_fields(fvs, statement_defaults()) == Some(st@));
    }
    if st.subject_digest.len() == 0 {
        return Err(Error::MalformedStatement);
    }
    if st.not_before > st.not_after {
        return Err(Error::MalformedStatement);
    }
    Ok(st)
}

/// The views of the entries of an exception list.
pub open spec fn exceptions_view(e: Seq<Vec<u8>>) -> Seq<Seq<u8>> {
    e.map_values(|v: Vec<u8>| v@)
}

/// Whether the statement's subject is exempt from temporal enforcement.
pub open spec fn subject_exempt(exceptions: Seq<Seq<u8>>, st: StatementView) -> bool {
    exists|j: int| 0 <= j < exceptions.len() && exceptions[j] == st.subject_id
}

/// The outcome of checking a statement's validity window at instant `now`,
/// honoring the exception list.
pub open spec fn validity_verdict(now: int, exceptions: Seq<Seq<u8>>, st: StatementView) -> Result<
    (),
    Error,
> {
    if subject_exempt(exceptions, st) {
        Ok(())
    } else if now < st.not_before {
        Err(Error::TooEarly)
    } else if now > st.not_after {
        Err(Error::TooLate)
    } else {
        Ok(())
    }
}

/// Outside any exception, temporal validation of a statement with a
/// well-ordered validity window — the only kind decoding produces — is
/// decided by the window alone: an instant before `not_before` fails as too
/// early, an instant after `not_after` fails as too late, and every instant
/// inside the window succeeds.
pub proof fn lemma_validity_window(now: int, st: StatementView)
    requires
        st.not_before <= st.not_after,
    ensures
        now < st.not_before ==> validity_verdict(now, Seq::empty(), st) == Err::<(), Error>(
            Error::TooEarly,
        ),
        now > st.not_after ==> validity_verdict(now, Seq::empty(), st) == Err::<(), Error>(
            Error::TooLate,
        ),
        st.not_before <= now <= st.not_after ==> validity_verdict(now, Seq::empty(), st) == Ok::<
            (),
            Error,
        >(()),
{
    assert(!subject_exempt(Seq::empty(), st));
}

/// Decides whether a statement is inside its validity window at
/// `now_utc_millis`.
///
/// Fails with [`Error::TooEarly`] exactly when the instant lies before
/// `not_before`, and with [`Error::TooLate`] exactly when it lies after
/// `not_after`.  A statement whose subject identifier appears in
/// `exceptions` is exempt: the call succeeds regardless of time.
pub fn validate_statement(now_utc_millis: i64, exceptions: &[Vec<u8>], statement: &Statement) -> (r:
    Result<(), Error>)
    ensures
        r == validity_verdict(now_utc_millis as int, exceptions_view(exceptions@), statement@),
{
    let ghost evs = exceptions_view(exceptions@);
    let n = exceptions.len();
    let mut j: usize = 0;
    while j < n
        invariant
            j <= n,
            n == exceptions@.len(),
            evs == exceptions_view(exceptions@),
            forall|k: int| 0 <= k < j ==> evs[k] != statement@.subject_id,
        decreases n - j,
    {
        if bytes_eq(exceptions[j].as_slice(), statement.subject_id.as_slice()) {
            proof {
                assert(evs[j as int] == statement@.subject_id);
            }
            return Ok(());
        }
        proof {
            assert(evs[j as int] == exceptions@[j as int]@);
        }
        j = j + 1;
    }
    proof {
        assert(!subject_exempt(evs, statement@));
    }
    if now_utc_millis < statement.not_before {
        return Err(Error::TooEarly);
    }
    if now_utc_millis > statement.not_after {
        return Err(Error::TooLate);
    }
    Ok(())
}

} // verus!

