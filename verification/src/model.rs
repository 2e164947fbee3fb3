//! The mathematical model of the codec.
//!
//! An attribute is modelled as its wire type code together with one of eight
//! payload shapes. The wire form of a payload, the framed wire form of a whole
//! attribute (header, payload, alignment padding), and the decoder over that
//! form are all stated here as specification functions; the executable code is
//! proved against them.
use vstd::prelude::*;
use vstd::bytes::*;
use vstd::utf8::*;
use crate::tags::{AttrKind, tag_kind, NLA_TYPE_MASK, NLA_F_NESTED};

verus! {

/// One attribute payload: a fixed-width unsigned integer, a one-byte boolean
/// flag, text, a raw byte blob, or an ordered list of child attributes.
pub enum AttrPayload {
    U8(u8),
    U16(u16),
    U32(u32),
    U64(u64),
    Flag(bool),
    Text(Seq<char>),
    Bytes(Seq<u8>),
    Nested(Seq<AttrValue>),
}

/// One attribute value: its wire type code and its payload.
pub struct AttrValue {
    pub tag: u16,
    pub payload: AttrPayload,
}

/// A decode failure: a type code outside the closed table, or a payload whose
/// bytes do not match the shape that the table assigns to the code.
pub enum WireErr {
    Unknown { tag: u16 },
    Invalid { tag: u16 },
}

/// The shape of a payload.
pub open spec fn payload_kind(p: AttrPayload) -> AttrKind {
    match p {
        AttrPayload::U8(_) => AttrKind::U8,
        AttrPayload::U16(_) => AttrKind::U16,
        AttrPayload::U32(_) => AttrKind::U32,
        AttrPayload::U64(_) => AttrKind::U64,
        AttrPayload::Flag(_) => AttrKind::Flag,
        AttrPayload::Text(_) => AttrKind::Text,
        AttrPayload::Bytes(_) => AttrKind::Bytes,
        AttrPayload::Nested(_) => AttrKind::Nested,
    }
}

/// Padding needed after `n` payload bytes to reach the 4-byte alignment unit.
pub open spec fn pad4(n: int) -> int {
    (4 - n % 4) % 4
}

/// `n` rounded up to the 4-byte alignment unit.
pub open spec fn align4(n: int) -> int {
    n + pad4(n)
}

/// A run of zero bytes, as written into alignment padding.
pub open spec fn zeros(n: int) -> Seq<u8> {
    Seq::new(n as nat, |i: int| 0u8)
}

/// The exact number of payload bytes a value occupies on the wire: the
/// scalar's width, one byte for a flag, the text's UTF-8 byte length plus one
/// terminator, the blob's length, or the sum of the children's framed lengths.
pub open spec fn payload_len(p: AttrPayload) -> int
    decreases p,
{
    match p {
        AttrPayload::U8(_) => 1,
        AttrPayload::U16(_) => 2,
        AttrPayload::U32(_) => 4,
        AttrPayload::U64(_) => 8,
        AttrPayload::Flag(_) => 1,
        AttrPayload::Text(s) => encode_utf8(s).len() as int + 1,
        AttrPayload::Bytes(bs) => bs.len() as int,
        AttrPayload::Nested(cs) => children_len(cs),
    }
}

/// Total framed length of a list of sibling attributes.
pub open spec fn children_len(cs: Seq<AttrValue>) -> int
    decreases cs,
{
    if cs.len() == 0 {
        0
    } else {
        framed_len(cs[0]) + children_len(cs.subrange(1, cs.len() as int))
    }
}

/// Length of one fully framed attribute: header, payload and padding.
pub open spec fn framed_len(a: AttrValue) -> int
    decreases a,
{
    align4(4 + payload_len(a.payload))
}

/// The payload bytes of a value, exactly as the encoder writes them.
/// Integers are laid out least-significant byte first, the byte order of the
/// hosts this kernel family is spoken with; text is its UTF-8 bytes followed
/// by one NUL terminator; a blob is copied verbatim; a nested list is the
/// concatenation of its children's framed bytes.
pub open spec fn payload_bytes(p: AttrPayload) -> Seq<u8>
    decreases p,
{
    match p {
        AttrPayload::U8(v) => seq![v],
        AttrPayload::U16(v) => spec_u16_to_le_bytes(v),
        AttrPayload::U32(v) => spec_u32_to_le_bytes(v),
        AttrPayload::U64(v) => spec_u64_to_le_bytes(v),
        AttrPayload::Flag(b) => seq![(if b { 1u8 } else { 0u8 })],
        AttrPayload::Text(s) => encode_utf8(s) + seq![0u8],
        AttrPayload::Bytes(bs) => bs,
        AttrPayload::Nested(cs) => children_bytes(cs),
    }
}

/// Concatenation of the framed bytes of a list of sibling attributes.
pub open spec fn children_bytes(cs: Seq<AttrValue>) -> Seq<u8>
    decreases cs,
{
    if cs.len() == 0 {
        Seq::empty()
    } else {
        framed_bytes(cs[0]) + children_bytes(cs.subrange(1, cs.len() as int))
    }
}

/// The type field of a framed attribute: the type code, with the nested flag
/// bit set when the payload is a child list.
pub open spec fn type_field_of(a: AttrValue) -> u16 {
    if a.payload is Nested {
        a.tag | NLA_F_NESTED
    } else {
        a.tag
    }
}

/// One fully framed attribute: a length field covering header plus payload,
/// the type field, the payload bytes, and zeroed alignment padding.
pub open spec fn framed_bytes(a: AttrValue) -> Seq<u8>
    decreases a,
{
    spec_u16_to_le_bytes((4 + payload_len(a.payload)) as u16)
        + spec_u16_to_le_bytes(type_field_of(a)) + payload_bytes(a.payload) + zeros(
        pad4(payload_len(a.payload)),
    )
}

/// A payload the encoder can frame without loss: every nested child, at any
/// depth, has a payload short enough for its length field (which covers the
/// four header bytes too) to fit in sixteen bits.
pub open spec fn encodable(p: AttrPayload) -> bool
    decreases p,
{
    match p {
        AttrPayload::Nested(cs) => encodable_children(cs),
        _ => true,
    }
}

/// Every attribute of a child list fits its frame, recursively.
pub open spec fn encodable_children(cs: Seq<AttrValue>) -> bool
    decreases cs,
{
    forall|i: int|
        0 <= i < cs.len() ==> encodable(#[trigger] cs[i].payload) && 4 + payload_len(cs[i].payload)
            <= 0xffff
}

/// The value's type code is in the closed table and carries exactly the
/// shape of the value's payload, recursively through nested children.
pub open spec fn tag_ok(a: AttrValue) -> bool
    decreases a,
{
    tag_kind(a.tag) == Some(payload_kind(a.payload)) && match a.payload {
        AttrPayload::Nested(cs) => tag_ok_children(cs),
        _ => true,
    }
}

/// Every attribute of a child list has a table-consistent type code.
pub open spec fn tag_ok_children(cs: Seq<AttrValue>) -> bool
    decreases cs,
{
    forall|i: int| 0 <= i < cs.len() ==> tag_ok(#[trigger] cs[i])
}

/// A well-formed attribute value: table-consistent and encodable.
pub open spec fn wf(a: AttrValue) -> bool {
    tag_ok(a) && encodable(a.payload)
}

/// The bytes of a text payload that carry the text itself: one trailing NUL
/// terminator, if present, is dropped; nothing else is.
pub open spec fn text_body(b: Seq<u8>) -> Seq<u8> {
    if b.len() > 0 && b[b.len() - 1] == 0 {
        b.subrange(0, b.len() - 1)
    } else {
        b
    }
}

/// The decoder, as a total function over a type code and payload bytes.
///
/// A code outside the table is a hard `Unknown` failure. A scalar payload
/// must have exactly the declared width; a flag payload is one byte, any
/// nonzero value reading as true. A text payload loses one trailing NUL
/// terminator if present and must then be valid UTF-8. A blob is taken
/// verbatim. A nested payload is walked attribute by attribute; the first
/// child failure is the result.
pub open spec fn parse_spec(tag: u16, b: Seq<u8>) -> Result<AttrValue, WireErr>
    decreases b.len(), 1int,
{
    match tag_kind(tag) {
        None => Err(WireErr::Unknown { tag }),
        Some(k) => match k {
            AttrKind::U8 => if b.len() == 1 {
                Ok(AttrValue { tag, payload: AttrPayload::U8(b[0]) })
            } else {
                Err(WireErr::Invalid { tag })
            },
            AttrKind::U16 => if b.len() == 2 {
                Ok(AttrValue { tag, payload: AttrPayload::U16(spec_u16_from_le_bytes(b)) })
            } else {
                Err(WireErr::Invalid { tag })
            },
            AttrKind::U32 => if b.len() == 4 {
                Ok(AttrValue { tag, payload: AttrPayload::U32(spec_u32_from_le_bytes(b)) })
            } else {
                Err(WireErr::Invalid { tag })
            },
            AttrKind::U64 => if b.len() == 8 {
                Ok(AttrValue { tag, payload: AttrPayload::U64(spec_u64_from_le_bytes(b)) })
            } else {
                Err(WireErr::Invalid { tag })
            },
            AttrKind::Flag => if b.len() == 1 {
                Ok(AttrValue { tag, payload: AttrPayload::Flag(b[0] != 0) })
            } else {
                Err(WireErr::Invalid { tag })
            },
            AttrKind::Text => if valid_utf8(text_body(b)) {
                Ok(AttrValue { tag, payload: AttrPayload::Text(decode_utf8(text_body(b))) })
            } else {
                Err(WireErr::Invalid { tag })
            },
            AttrKind::Bytes => Ok(AttrValue { tag, payload: AttrPayload::Bytes(b) }),
            AttrKind::Nested => match parse_children_spec(tag, b) {
                Ok(cs) => Ok(AttrValue { tag, payload: AttrPayload::Nested(cs) }),
                Err(e) => Err(e),
            },
        },
    }
}

/// The sibling walk over a nested payload. Each step needs four header bytes;
/// the length field must cover at least the header and lie within the buffer;
/// the child's code is the type field with its two flag bits masked off; the
/// walk then advances by the frame length rounded up to the alignment unit.
/// A malformed header is an `Invalid` failure carrying the parent's code; a
/// child failure is returned as found.
pub open spec fn parse_children_spec(ptag: u16, b: Seq<u8>) -> Result<Seq<AttrValue>, WireErr>
    decreases b.len(), 0int,
{
    if b.len() == 0 {
        Ok(Seq::empty())
    } else if b.len() < 4 {
        Err(WireErr::Invalid { tag: ptag })
    } else {
        let len_field = spec_u16_from_le_bytes(b.subrange(0, 2)) as int;
        if len_field < 4 || len_field > b.len() {
            Err(WireErr::Invalid { tag: ptag })
        } else {
            let ctag = spec_u16_from_le_bytes(b.subrange(2, 4)) & NLA_TYPE_MASK;
            match parse_spec(ctag, b.subrange(4, len_field)) {
                Err(e) => Err(e),
                Ok(c) => {
                    let rest = if align4(len_field) >= b.len() {
                        Seq::<u8>::empty()
                    } else {
                        b.subrange(align4(len_field), b.len() as int)
                    };
                    match parse_children_spec(ptag, rest) {
                        Err(e) => Err(e),
                        Ok(cs) => Ok(seq![c] + cs),
                    }
                },
            }
        }
    }
}

/// A framed attribute occupies at least its header and payload, a whole
/// number of alignment units; a payload length is never negative.
pub proof fn lemma_framed_len_bounds(a: AttrValue)
    ensures
        framed_len(a) >= 4 + payload_len(a.payload),
        framed_len(a) < 8 + payload_len(a.payload),
        framed_len(a) % 4 == 0,
        payload_len(a.payload) >= 0,
    decreases a,
{
    lemma_payload_len_nonneg(a.payload);
}

pub proof fn lemma_payload_len_nonneg(p: AttrPayload)
    ensures
        payload_len(p) >= 0,
    decreases p,
{
    match p {
        AttrPayload::Nested(cs) => lemma_children_len_nonneg(cs),
        _ => {},
    }
}

pub proof fn lemma_children_len_nonneg(cs: Seq<AttrValue>)
    ensures
        children_len(cs) >= 0,
    decreases cs,
{
    if cs.len() > 0 {
        lemma_framed_len_bounds(cs[0]);
        lemma_children_len_nonneg(cs.subrange(1, cs.len() as int));
    }
}

/// Appending one attribute to a child list adds its framed length.
pub proof fn lemma_children_len_push(cs: Seq<AttrValue>, a: AttrValue)
    ensures
        children_len(cs.push(a)) == children_len(cs) + framed_len(a),
    decreases cs,
{
    let s = cs.push(a);
    assert(s.len() == cs.len() + 1);
    if cs.len() == 0 {
        assert(s[0] == a);
        assert(s.subrange(1, s.len() as int) =~= Seq::<AttrValue>::empty());
        assert(children_len(s) == framed_len(s[0]) + children_len(s.subrange(1, s.len() as int)));
    } else {
        let rest = cs.subrange(1, cs.len() as int);
        assert(s[0] == cs[0]);
        assert(s.subrange(1, s.len() as int) =~= rest.push(a));
        lemma_children_len_push(rest, a);
        assert(children_len(s) == framed_len(s[0]) + children_len(s.subrange(1, s.len() as int)));
    }
}

/// Appending one attribute to a child list appends its framed bytes.
pub proof fn lemma_children_bytes_push(cs: Seq<AttrValue>, a: AttrValue)
    ensures
        children_bytes(cs.push(a)) == children_bytes(cs) + framed_bytes(a),
    decreases cs,
{
    let s = cs.push(a);
    assert(s.len() == cs.len() + 1);
    if cs.len() == 0 {
        assert(s[0] == a);
        assert(s.subrange(1, s.len() as int) =~= Seq::<AttrValue>::empty());
        assert(children_bytes(s) == framed_bytes(s[0]) + children_bytes(
            s.subrange(1, s.len() as int),
        ));
        assert(framed_bytes(a) + Seq::<u8>::empty() =~= framed_bytes(a));
        assert(Seq::<u8>::empty() + framed_bytes(a) =~= framed_bytes(a));
    } else {
        let rest = cs.subrange(1, cs.len() as int);
        assert(s[0] == cs[0]);
        assert(s.subrange(1, s.len() as int) =~= rest.push(a));
        lemma_children_bytes_push(rest, a);
        assert(children_bytes(s) == framed_bytes(s[0]) + children_bytes(
            s.subrange(1, s.len() as int),
        ));
        assert(framed_bytes(cs[0]) + (children_bytes(rest) + framed_bytes(a)) =~= (framed_bytes(
            cs[0],
        ) + children_bytes(rest)) + framed_bytes(a));
    }
}

/// The wire form of a payload occupies exactly the length the model assigns
/// to it: `payload_len` neither under- nor over-reports.
pub proof fn lemma_payload_bytes_len(p: AttrPayload)
    ensures
        payload_bytes(p).len() == payload_len(p),
    decreases p,
{
    lemma_auto_spec_u16_to_from_le_bytes();
    lemma_auto_spec_u32_to_from_le_bytes();
    lemma_auto_spec_u64_to_from_le_bytes();
    match p {
        AttrPayload::Nested(cs) => lemma_children_bytes_len(cs),
        _ => {},
    }
}

/// The framed wire form of a child list occupies exactly `children_len`.
pub proof fn lemma_children_bytes_len(cs: Seq<AttrValue>)
    ensures
        children_bytes(cs).len() == children_len(cs),
    decreases cs,
{
    if cs.len() > 0 {
        lemma_framed_bytes_len(cs[0]);
        lemma_children_bytes_len(cs.subrange(1, cs.len() as int));
    }
}

/// One framed attribute occupies exactly `framed_len`.
pub proof fn lemma_framed_bytes_len(a: AttrValue)
    ensures
        framed_bytes(a).len() == framed_len(a),
    decreases a,
{
    lemma_auto_spec_u16_to_from_le_bytes();
    lemma_payload_bytes_len(a.payload);
    lemma_payload_len_nonneg(a.payload);
}

} // verus!
