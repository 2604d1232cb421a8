//! Byte-level decoding primitives shared by the statement and log-entry
//! codecs: big-endian integer readers, byte-string equality, and a verified
//! parser for the tag-length-value framing both formats use.
//!
//! A serialized record is a sequence of fields.  Each field is one tag byte,
//! a four-byte big-endian value length, and that many value bytes.  Input
//! that ends inside a field header or a field value is malformed.

use vstd::prelude::*;
use vstd::slice::{slice_subrange, slice_to_vec};

verus! {

/// The integer denoted by four bytes in big-endian order.
pub open spec fn be_u32(s: Seq<u8>) -> int
    recommends
        s.len() == 4,
{
    s[0] * 0x100_0000 + s[1] * 0x1_0000 + s[2] * 0x100 + s[3]
}

/// The integer denoted by eight bytes in big-endian order.
pub open spec fn be_u64(s: Seq<u8>) -> int
    recommends
        s.len() == 8,
{
    s[0] * 0x100_0000_0000_0000 + s[1] * 0x1_0000_0000_0000 + s[2] * 0x100_0000_0000
        + s[3] * 0x1_0000_0000 + s[4] * 0x100_0000 + s[5] * 0x1_0000 + s[6] * 0x100 + s[7]
}

/// Reads the big-endian 32-bit integer at offset `i`.
pub fn be_u32_at(bytes: &[u8], i: usize) -> (r: u32)
    requires
        i + 4 <= bytes@.len(),
    ensures
        r as int == be_u32(bytes@.subrange(i as int, i as int + 4)),
{
    let b0 = bytes[i] as u32;
    let b1 = bytes[i + 1] as u32;
    let b2 = bytes[i + 2] as u32;
    let b3 = bytes[i + 3] as u32;
    b0 * 0x100_0000 + b1 * 0x1_0000 + b2 * 0x100 + b3
}

/// Reads the big-endian 64-bit integer at offset `i`.
pub fn be_u64_at(bytes: &[u8], i: usize) -> (r: u64)
    requires
        i + 8 <= bytes@.len(),
    ensures
        r as int == be_u64(bytes@.subrange(i as int, i as int + 8)),
{
    let b0 = bytes[i] as u64;
    let b1 = bytes[i + 1] as u64;
    let b2 = bytes[i + 2] as u64;
    let b3 = bytes[i + 3] as u64;
    let b4 = bytes[i + 4] as u64;
    let b5 = bytes[i + 5] as u64;
    let b6 = bytes[i + 6] as u64;
    let b7 = bytes[i + 7] as u64;
    b0 * 0x100_0000_0000_0000 + b1 * 0x1_0000_0000_0000 + b2 * 0x100_0000_0000
        + b3 * 0x1_0000_0000 + b4 * 0x100_0000 + b5 * 0x1_0000 + b6 * 0x100 + b7
}

/// Decides whether two byte strings are equal.
pub fn bytes_eq(a: &[u8], b: &[u8]) -> (r: bool)
    ensures
        r == (a@ == b@),
{
    if a.len() != b.len() {
        return false;
    }
    let n = a.len();
    let mut i: usize = 0;
    while i < n
        invariant
            i <= n,
            n == a@.len(),
            n == b@.len(),
            forall|k: int| 0 <= k < i ==> a@[k] == b@[k],
        decreases n - i,
    {
        if a[i] != b[i] {
            return false;
        }
        i = i + 1;
    }
    proof {
        assert(a@ =~= b@);
    }
    true
}

/// One decoded field: its tag byte and its value bytes.
pub struct Field {
    pub tag: u8,
    pub value: Vec<u8>,
}

/// The mathematical image of a decoded field.
#[verifier::ext_equal]
pub ghost struct FieldView {
    pub tag: u8,
    pub value: Seq<u8>,
}

impl View for Field {
    type V = FieldView;

    open spec fn view(&self) -> FieldView {
        FieldView { tag: self.tag, value: self.value@ }
    }
}

/// The views of a sequence of decoded fields.
pub open spec fn fields_view(s: Seq<Field>) -> Seq<FieldView> {
    s.map_values(|f: Field| f@)
}

/// The field list denoted by `bytes`, or `None` when the framing is
/// malformed: the bytes end inside a field header or a field value.
pub open spec fn tlv_fields(bytes: Seq<u8>) -> Option<Seq<FieldView>>
    decreases bytes.len(),
{
    if bytes.len() == 0 {
        Some(Seq::empty())
    } else if bytes.len() < 5 {
        None
    } else {
        let len = be_u32(bytes.subrange(1, 5));
        if bytes.len() < 5 + len {
            None
        } else {
            let field = FieldView { tag: bytes[0], value: bytes.subrange(5, 5 + len) };
            match tlv_fields(bytes.skip(5 + len)) {
                Some(rest) => Some(seq![field] + rest),
                None => None,
            }
        }
    }
}

/// Relates the fields already decoded to the suffix of the input that
/// remains: decoding the whole input succeeds exactly when decoding the
/// suffix does, and then yields the decoded fields followed by the suffix's.
pub open spec fn tlv_decode_state(bytes: Seq<u8>, done: Seq<FieldView>, i: int) -> bool {
    match tlv_fields(bytes.skip(i)) {
        Some(rest) => tlv_fields(bytes) == Some(done + rest),
        None => tlv_fields(bytes) is None,
    }
}

/// Decodes the tag-length-value framing, or returns `None` on malformed
/// input.
pub fn parse_tlv(bytes: &[u8]) -> (r: Option<Vec<Field>>)
    ensures
        match r {
            Some(fields) => tlv_fields(bytes@) == Some(fields_view(fields@)),
            None => tlv_fields(bytes@) is None,
        },
{
    let n = bytes.len();
    let mut out: Vec<Field> = Vec::new();
    let mut i: usize = 0;
    proof {
        assert(bytes@.skip(0) =~= bytes@);
        assert(fields_view(out@) =~= Seq::<FieldView>::empty());
        if tlv_fields(bytes@) is Some {
            assert(fields_view(out@) + tlv_fields(bytes@)->Some_0 =~= tlv_fields(
                bytes@,
            )->Some_0);
        }
    }
    while i < n
        invariant
            i <= n,
            n == bytes@.len(),
            tlv_decode_state(bytes@, fields_view(out@), i as int),
        decreases n - i,
    {
        let ghost s = bytes@.skip(i as int);
        let rem = n - i;
        if rem < 5 {
            proof {
                assert(tlv_fields(s) is None);
            }
            return None;
        }
        let tag = bytes[i];
        let len32 = be_u32_at(bytes, i + 1);
        proof {
            assert(s.subrange(1, 5) =~= bytes@.subrange(i as int + 1, i as int + 5));
        }
        let len = len32 as usize;
        if len > rem - 5 {
            proof {
                assert(s.len() < 5 + be_u32(s.subrange(1, 5)));
                assert(tlv_fields(s) is None);
            }
            return None;
        }
        let value_slice = slice_subrange(bytes, i + 5, i + 5 + len);
        let value = slice_to_vec(value_slice);
        let field = Field { tag, value };
        let ghost prev = fields_view(out@);
        out.push(field);
        proof {
            let fv = FieldView { tag: s[0], value: s.subrange(5, 5 + len as int) };
            assert(s.subrange(5, 5 + len as int) =~= bytes@.subrange(
                i as int + 5,
                i as int + 5 + len as int,
            ));
            let s2 = s.skip(5 + len as int);
            assert(bytes@.skip(i as int + 5 + len as int) =~= s2);
            assert(fields_view(out@) =~= prev.push(fv));
            if tlv_fields(s2) is Some {
                let rest = tlv_fields(s2)->Some_0;
                assert(tlv_fields(s) == Some(seq![fv] + rest));
                assert(prev + (seq![fv] + rest) =~= prev.push(fv) + rest);
            } else {
                assert(tlv_fields(s) is None);
            }
        }
        i = i + 5 + len;
    }
    proof {
        assert(bytes@.skip(i as int) =~= Seq::<u8>::empty());
        assert(tlv_fields(bytes@.skip(i as int)) == Some(Seq::<FieldView>::empty()));
        assert(fields_view(out@) + Seq::<FieldView>::empty() =~= fields_view(out@));
    }
    Some(out)
}

} // verus!
