//! The laws of the codec, stated and proved over the model.
//!
//! The executable encoder and decoder are proved against `payload_bytes` and
//! `parse_spec`; the laws here close the loop between those two: encoding is
//! exactly `value_len` bytes long, decoding inverts encoding child-for-child,
//! the tag table is total and injective over the closed set, and malformed
//! scalar payloads are rejected.
use vstd::prelude::*;
use vstd::bytes::{
    lemma_auto_spec_u16_to_from_le_bytes, lemma_auto_spec_u32_to_from_le_bytes,
    lemma_auto_spec_u64_to_from_le_bytes,
};
use vstd::utf8::{encode_utf8, encode_utf8_valid_utf8, encode_utf8_decode_utf8};
use crate::tags::{AttrKind, tag_kind, lemma_known_tag_small};
use crate::attr::{GenlDevlinkAttrs, attr_model, models_of, lemma_models_of_index};
use crate::model::{
    AttrValue, AttrPayload, WireErr, payload_bytes, payload_len, children_bytes, children_len,
    framed_bytes, framed_len, parse_spec, parse_children_spec, text_body, type_field_of, zeros,
    pad4, align4, wf, tag_ok, tag_ok_children, encodable, encodable_children, payload_kind,
    lemma_payload_bytes_len, lemma_children_bytes_len, lemma_framed_bytes_len,
    lemma_payload_len_nonneg, lemma_children_len_nonneg, lemma_framed_len_bounds,
};

verus! {

/// Length exactness: emitting a payload writes exactly `value_len` bytes,
/// no more and no fewer, so a buffer of exactly that size is fully written
/// and never overrun.
pub proof fn lemma_length_exact(p: AttrPayload)
    ensures
        payload_bytes(p).len() == payload_len(p),
{
    lemma_payload_bytes_len(p);
}

/// Round-trip at the model level: decoding a well-formed value's own tag and
/// emitted payload yields the value back, byte for byte and, for a nested
/// value, child for child in order.
pub proof fn lemma_round_trip(a: AttrValue)
    requires
        wf(a),
    ensures
        parse_spec(a.tag, payload_bytes(a.payload)) == Ok::<AttrValue, WireErr>(a),
    decreases a,
{
    lemma_auto_spec_u16_to_from_le_bytes();
    lemma_auto_spec_u32_to_from_le_bytes();
    lemma_auto_spec_u64_to_from_le_bytes();
    let b = payload_bytes(a.payload);
    match a.payload {
        AttrPayload::Text(s) => {
            let enc = encode_utf8(s);
            assert(b == enc + seq![0u8]);
            assert(b[b.len() - 1] == 0);
            assert(text_body(b) =~= enc);
            encode_utf8_valid_utf8(s);
            encode_utf8_decode_utf8(s);
        },
        AttrPayload::Nested(cs) => {
            lemma_children_round_trip(a.tag, cs);
        },
        _ => {},
    }
}

/// Round-trip of a sibling list: walking the concatenation of the framed
/// children of a well-formed list recovers exactly that list.
pub proof fn lemma_children_round_trip(ptag: u16, cs: Seq<AttrValue>)
    requires
        tag_ok_children(cs),
        encodable_children(cs),
    ensures
        parse_children_spec(ptag, children_bytes(cs)) == Ok::<Seq<AttrValue>, WireErr>(cs),
    decreases cs,
{
    lemma_auto_spec_u16_to_from_le_bytes();
    if cs.len() == 0 {
        assert(cs =~= Seq::<AttrValue>::empty());
    } else {
        let c = cs[0];
        let rest_cs = cs.subrange(1, cs.len() as int);
        let f = framed_bytes(c);
        let rb = children_bytes(rest_cs);
        let b = children_bytes(cs);
        assert(b == f + rb);
        let plen = payload_len(c.payload);
        let pb = payload_bytes(c.payload);
        let hd1 = vstd::bytes::spec_u16_to_le_bytes((4 + plen) as u16);
        let hd2 = vstd::bytes::spec_u16_to_le_bytes(type_field_of(c));
        let z = zeros(pad4(plen));
        assert(f == hd1 + hd2 + pb + z);
        assert(tag_ok(c) && encodable(c.payload) && 4 + plen <= 0xffff);
        lemma_payload_bytes_len(c.payload);
        lemma_payload_len_nonneg(c.payload);
        lemma_framed_bytes_len(c);
        lemma_framed_len_bounds(c);
        lemma_children_bytes_len(rest_cs);
        lemma_children_len_nonneg(rest_cs);
        // the header is read back as written
        assert(b.len() >= 4);
        assert(b.subrange(0, 2) =~= hd1);
        assert(b.subrange(2, 4) =~= hd2);
        let len_field = vstd::bytes::spec_u16_from_le_bytes(b.subrange(0, 2)) as int;
        assert(len_field == 4 + plen);
        assert(4 <= len_field <= b.len());
        lemma_known_tag_small(c.tag);
        let ctag = vstd::bytes::spec_u16_from_le_bytes(b.subrange(2, 4)) & crate::tags::NLA_TYPE_MASK;
        assert(ctag == c.tag);
        // the child's payload slice is its payload bytes
        assert(b.subrange(4, len_field) =~= pb);
        lemma_round_trip(c);
        assert(parse_spec(ctag, b.subrange(4, len_field)) == Ok::<AttrValue, WireErr>(c));
        // the walk advances over the padding to the remaining siblings
        assert(align4(len_field) == framed_len(c));
        assert(framed_len(c) == f.len());
        assert(forall|i: int|
            0 <= i < rest_cs.len() ==> #[trigger] rest_cs[i] == cs[i + 1]);
        lemma_children_round_trip(ptag, rest_cs);
        if align4(len_field) >= b.len() {
            assert(rb.len() == 0);
            if rest_cs.len() > 0 {
                lemma_framed_len_bounds(rest_cs[0]);
                lemma_children_len_nonneg(rest_cs.subrange(1, rest_cs.len() as int));
                assert(children_len(rest_cs) > 0);
                assert(false);
            }
            assert(rest_cs =~= Seq::<AttrValue>::empty());
        } else {
            assert(b.subrange(align4(len_field), b.len() as int) =~= rb);
        }
        assert(seq![c] + rest_cs =~= cs);
    }
}

/// The tag table is total over the variants: the model of every attribute
/// value carries a code in the closed table, with the shape of its payload,
/// recursively through nested children.
#[verifier::rlimit(100)]
pub proof fn lemma_view_tag_ok(v: GenlDevlinkAttrs)
    ensures
        tag_ok(attr_model(v)),
    decreases v,
{
    match v {
        GenlDevlinkAttrs::DpipeTables(cs) | GenlDevlinkAttrs::DpipeTable(cs)
        | GenlDevlinkAttrs::DpipeTableMatches(cs) | GenlDevlinkAttrs::DpipeTableActions(cs)
        | GenlDevlinkAttrs::DpipeEntries(cs) | GenlDevlinkAttrs::DpipeEntry(cs)
        | GenlDevlinkAttrs::DpipeEntryMatchValues(cs)
        | GenlDevlinkAttrs::DpipeEntryActionValues(cs) | GenlDevlinkAttrs::DpipeMatch(cs)
        | GenlDevlinkAttrs::DpipeMatchValue(cs) | GenlDevlinkAttrs::DpipeAction(cs)
        | GenlDevlinkAttrs::DpipeActionValue(cs) | GenlDevlinkAttrs::DpipeHeaders(cs)
        | GenlDevlinkAttrs::DpipeHader(cs) | GenlDevlinkAttrs::DpipeHeaderFields(cs)
        | GenlDevlinkAttrs::DpipeField(cs) | GenlDevlinkAttrs::ResourceList(cs)
        | GenlDevlinkAttrs::Resource(cs) | GenlDevlinkAttrs::Param(cs)
        | GenlDevlinkAttrs::ParamValueList(cs) | GenlDevlinkAttrs::ParamValueData(cs)
        | GenlDevlinkAttrs::RegionSnapshots(cs) | GenlDevlinkAttrs::RegionSnapshot(cs)
        | GenlDevlinkAttrs::RegionChunks(cs) | GenlDevlinkAttrs::RegionChunk(cs)
        | GenlDevlinkAttrs::InfoVersionFixed(cs) | GenlDevlinkAttrs::InfoVersionRunning(cs)
        | GenlDevlinkAttrs::InfoVersionStored(cs) | GenlDevlinkAttrs::Fmsg(cs)
        | GenlDevlinkAttrs::FmsgObjValueData(cs) | GenlDevlinkAttrs::HealthReporter(cs)
        | GenlDevlinkAttrs::Stats(cs) | GenlDevlinkAttrs::TrapMetadata(cs)
        | GenlDevlinkAttrs::PortFunction(cs) | GenlDevlinkAttrs::DevStats(cs)
        | GenlDevlinkAttrs::ReloadStats(cs) | GenlDevlinkAttrs::ReloadStatsEntry(cs)
        | GenlDevlinkAttrs::RemoteReloadStats(cs) | GenlDevlinkAttrs::ReloadActionInfo(cs)
        | GenlDevlinkAttrs::ReloadActionStats(cs) => {
            let ms = models_of(cs@);
            lemma_models_of_index(cs@);
            assert forall|i: int| 0 <= i < ms.len() implies tag_ok(#[trigger] ms[i]) by {
                lemma_view_tag_ok(cs@[i]);
            }
        },
        _ => {},
    }
}

/// Round-trip for the attribute type itself: for every encodable value,
/// decoding its own `kind` and emitted payload reconstructs it, nested
/// children in their original order.
pub proof fn lemma_attr_round_trip(v: GenlDevlinkAttrs)
    requires
        encodable(attr_model(v).payload),
    ensures
        parse_spec(attr_model(v).tag, payload_bytes(attr_model(v).payload)) == Ok::<
            AttrValue,
            WireErr,
        >(attr_model(v)),
{
    lemma_view_tag_ok(v);
    lemma_round_trip(attr_model(v));
}

/// A code outside the closed table decodes to `Unknown`, whatever the
/// payload: the dispatch is closed, and nothing is silently ignored.
pub proof fn lemma_unknown_tag(tag: u16, b: Seq<u8>)
    requires
        tag_kind(tag) is None,
    ensures
        parse_spec(tag, b) == Err::<AttrValue, WireErr>(WireErr::Unknown { tag }),
{
}

/// Every `Unknown` failure, at any nesting depth, names a code that really
/// is outside the closed table.
pub proof fn lemma_unknown_err_tag(tag: u16, b: Seq<u8>)
    ensures
        match parse_spec(tag, b) {
            Err(WireErr::Unknown { tag: t }) => tag_kind(t) is None,
            _ => true,
        },
    decreases b.len(), 1int,
{
    match tag_kind(tag) {
        Some(AttrKind::Nested) => lemma_unknown_err_tag_children(tag, b),
        _ => {},
    }
}

/// As `lemma_unknown_err_tag`, for the sibling walk of a nested payload.
pub proof fn lemma_unknown_err_tag_children(ptag: u16, b: Seq<u8>)
    ensures
        match parse_children_spec(ptag, b) {
            Err(WireErr::Unknown { tag: t }) => tag_kind(t) is None,
            _ => true,
        },
    decreases b.len(), 0int,
{
    if b.len() >= 4 {
        let len_field = vstd::bytes::spec_u16_from_le_bytes(b.subrange(0, 2)) as int;
        if 4 <= len_field && len_field <= b.len() {
            let ctag = vstd::bytes::spec_u16_from_le_bytes(b.subrange(2, 4))
                & crate::tags::NLA_TYPE_MASK;
            lemma_unknown_err_tag(ctag, b.subrange(4, len_field));
            let rest = if align4(len_field) >= b.len() {
                Seq::<u8>::empty()
            } else {
                b.subrange(align4(len_field), b.len() as int)
            };
            lemma_unknown_err_tag_children(ptag, rest);
        }
    }
}

/// A code in the closed table never decodes to `Unknown`, and a successful
/// decode returns that very code with the payload shape the table assigns.
pub proof fn lemma_known_tag_shape(tag: u16, b: Seq<u8>)
    requires
        tag_kind(tag) is Some,
    ensures
        parse_spec(tag, b) != Err::<AttrValue, WireErr>(WireErr::Unknown { tag }),
        parse_spec(tag, b) matches Ok(a) ==> a.tag == tag && tag_kind(tag) == Some(
            payload_kind(a.payload),
        ),
{
    lemma_unknown_err_tag(tag, b);
}

/// The code determines the payload shape: two table-consistent values with
/// the same code have payloads of the same shape. Together with each model
/// carrying its code, the variant-to-code table is injective.
pub proof fn lemma_tag_determines_kind(a: AttrValue, b: AttrValue)
    requires
        tag_ok(a),
        tag_ok(b),
        a.tag == b.tag,
    ensures
        payload_kind(a.payload) == payload_kind(b.payload),
{
}

/// Malformed scalars are rejected: a fixed-width scalar or flag code with a
/// payload of any other length than its width decodes to `InvalidValue`,
/// never to a value and never to a zero-filled default.
pub proof fn lemma_scalar_width_exact(tag: u16, b: Seq<u8>)
    ensures
        tag_kind(tag) == Some(AttrKind::U8) && b.len() != 1 ==> parse_spec(tag, b) == Err::<
            AttrValue,
            WireErr,
        >(WireErr::Invalid { tag }),
        tag_kind(tag) == Some(AttrKind::U16) && b.len() != 2 ==> parse_spec(tag, b) == Err::<
            AttrValue,
            WireErr,
        >(WireErr::Invalid { tag }),
        tag_kind(tag) == Some(AttrKind::U32) && b.len() != 4 ==> parse_spec(tag, b) == Err::<
            AttrValue,
            WireErr,
        >(WireErr::Invalid { tag }),
        tag_kind(tag) == Some(AttrKind::U64) && b.len() != 8 ==> parse_spec(tag, b) == Err::<
            AttrValue,
            WireErr,
        >(WireErr::Invalid { tag }),
        tag_kind(tag) == Some(AttrKind::Flag) && b.len() != 1 ==> parse_spec(tag, b) == Err::<
            AttrValue,
            WireErr,
        >(WireErr::Invalid { tag }),
{
}

} // verus!
