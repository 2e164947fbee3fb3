//! The decoder: dispatches on a wire type code, validates the payload
//! against the shape the table assigns to that code, and rebuilds the
//! attribute value, or reports which way the input was malformed.
use vstd::prelude::*;
use vstd::bytes::{u16_from_le_bytes, u32_from_le_bytes, u64_from_le_bytes};
use vstd::bytes::{spec_u16_from_le_bytes, spec_u32_from_le_bytes, spec_u64_from_le_bytes};
use vstd::slice::{slice_index_get, slice_subrange, slice_to_vec};
use vstd::utf8::{valid_utf8, decode_utf8, encode_utf8, encode_utf8_decode_utf8};
use vstd::string::StringSliceAdditionalSpecFns;
use crate::tags::{
    NLA_TYPE_MASK,
    DEVLINK_ATTR_BUS_NAME,
    DEVLINK_ATTR_LOCATION,
    DEVLINK_ATTR_PORT_INDEX,
    DEVLINK_ATTR_PORT_TYPE,
    DEVLINK_ATTR_DESIRED_TYPE,
    DEVLINK_ATTR_NETDEV_IF_INDEX,
    DEVLINK_ATTR_NETDEV_NAME,
    DEVLINK_ATTR_PORT_IBDEV_NAME,
    DEVLINK_ATTR_PORT_SPLIT_COUNT,
    DEVLINK_ATTR_PORT_SPLIT_GROUP,
    DEVLINK_ATTR_SB_INDEX,
    DEVLINK_ATTR_SB_SIZE,
    DEVLINK_ATTR_SB_INGRESS_POOL_COUNT,
    DEVLINK_ATTR_SB_EGRESS_POOL_COUNT,
    DEVLINK_ATTR_SB_INGRESS_TC_COUNT,
    DEVLINK_ATTR_SB_EGRESS_TC_COUNT,
    DEVLINK_ATTR_SB_POOL_INDEX,
    DEVLINK_ATTR_SB_POOL_TYPE,
    DEVLINK_ATTR_SB_POOL_SIZE,
    DEVLINK_ATTR_SB_POOL_THRESHOLD_TYPE,
    DEVLINK_ATTR_SB_THRESHOLD,
    DEVLINK_ATTR_SB_TC_INDEX,
    DEVLINK_ATTR_SB_OCC_CUR,
    DEVLINK_ATTR_SB_OCC_MAX,
    DEVLINK_ATTR_ESWITCH_MODE,
    DEVLINK_ATTR_ESWITCH_INLINE_MODE,
    DEVLINK_ATTR_DPIPE_TABLES,
    DEVLINK_ATTR_DPIPE_TABLE,
    DEVLINK_ATTR_DPIPE_TABLE_NAME,
    DEVLINK_ATTR_DPIPE_TABLE_SIZE,
    DEVLINK_ATTR_DPIPE_TABLE_MATCHES,
    DEVLINK_ATTR_DPIPE_TABLE_ACTIONS,
    DEVLINK_ATTR_DPIPE_TABLE_COUNTERS_ENABLED,
    DEVLINK_ATTR_DPIPE_ENTRIES,
    DEVLINK_ATTR_DPIPE_ENTRY,
    DEVLINK_ATTR_DPIPE_ENTRY_INDEX,
    DEVLINK_ATTR_DPIPE_ENTRY_MATCH_VALUES,
    DEVLINK_ATTR_DPIPE_ENTRY_ACTION_VALUES,
    DEVLINK_ATTR_DPIPE_ENTRY_COUNTER,
    DEVLINK_ATTR_DPIPE_MATCH,
    DEVLINK_ATTR_DPIPE_MATCH_VALUE,
    DEVLINK_ATTR_DPIPE_MATCH_TYPE,
    DEVLINK_ATTR_DPIPE_ACTION,
    DEVLINK_ATTR_DPIPE_ACTION_VALUE,
    DEVLINK_ATTR_DPIPE_ACTION_TYPE,
    DEVLINK_ATTR_DPIPE_VALUE,
    DEVLINK_ATTR_DPIPE_VALUE_MASK,
    DEVLINK_ATTR_DPIPE_VALUE_MAPPING,
    DEVLINK_ATTR_DPIPE_HEADERS,
    DEVLINK_ATTR_DPIPE_HEADER,
    DEVLINK_ATTR_DPIPE_HEADER_NAME,
    DEVLINK_ATTR_DPIPE_HEADER_ID,
    DEVLINK_ATTR_DPIPE_HEADER_FIELDS,
    DEVLINK_ATTR_DPIPE_HEADER_GLOBAL,
    DEVLINK_ATTR_DPIPE_HEADER_INDEX,
    DEVLINK_ATTR_DPIPE_FIELD,
    DEVLINK_ATTR_DPIPE_FIELD_NAME,
    DEVLINK_ATTR_DPIPE_FIELD_ID,
    DEVLINK_ATTR_DPIPE_FIELD_BITWIDTH,
    DEVLINK_ATTR_DPIPE_FIELD_MAPPING_TYPE,
    DEVLINK_ATTR_ESWITCH_ENCAP_MODE,
    DEVLINK_ATTR_RESOURCE_LIST,
    DEVLINK_ATTR_RESOURCE,
    DEVLINK_ATTR_RESOURCE_NAME,
    DEVLINK_ATTR_RESOURCE_ID,
    DEVLINK_ATTR_RESOURCE_SIZE,
    DEVLINK_ATTR_RESOURCE_SIZE_NEW,
    DEVLINK_ATTR_RESOURCE_SIZE_VALID,
    DEVLINK_ATTR_RESOURCE_SIZE_MIN,
    DEVLINK_ATTR_RESOURCE_SIZE_MAX,
    DEVLINK_ATTR_RESOURCE_SIZE_GRAN,
    DEVLINK_ATTR_RESOURCE_UNIT,
    DEVLINK_ATTR_RESOURCE_OCC,
    DEVLINK_ATTR_DPIPE_TABLE_RESOURCE_ID,
    DEVLINK_ATTR_DPIPE_TABLE_RESOURCE_UNITS,
    DEVLINK_ATTR_PORT_FLAVOUR,
    DEVLINK_ATTR_PORT_NUMBER,
    DEVLINK_ATTR_PARAM,
    DEVLINK_ATTR_PARAM_NAME,
    DEVLINK_ATTR_PARAM_GENERIC,
    DEVLINK_ATTR_PARAM_TYPE,
    DEVLINK_ATTR_PARAM_VALUES_LIST,
    DEVLINK_ATTR_PARAM_VALUE,
    DEVLINK_ATTR_PARAM_VALUE_DATA,
    DEVLINK_ATTR_PARAM_VALUE_CMODE,
    DEVLINK_ATTR_REGION_NAME,
    DEVLINK_ATTR_REGION_SIZE,
    DEVLINK_ATTR_REGION_SNAPSHOTS,
    DEVLINK_ATTR_REGION_SNAPSHOT,
    DEVLINK_ATTR_REGION_SNAPSHOT_ID,
    DEVLINK_ATTR_REGION_CHUNKS,
    DEVLINK_ATTR_REGION_CHUNK,
    DEVLINK_ATTR_REGION_CHUNK_DATA,
    DEVLINK_ATTR_REGION_CHUNK_ADDR,
    DEVLINK_ATTR_REGION_CHUNK_LEN,
    DEVLINK_ATTR_INFO_DRIVER_NAME,
    DEVLINK_ATTR_INFO_SERIAL_NUMBER,
    DEVLINK_ATTR_INFO_VERSION_FIXED,
    DEVLINK_ATTR_INFO_VERSION_RUNNING,
    DEVLINK_ATTR_INFO_VERSION_STORED,
    DEVLINK_ATTR_INFO_VERSION_NAME,
    DEVLINK_ATTR_INFO_VERSION_VALUE,
    DEVLINK_ATTR_SB_POOL_CELL_SIZE,
    DEVLINK_ATTR_FMSG,
    DEVLINK_ATTR_FMSG_OBJ_NEST_START,
    DEVLINK_ATTR_FMSG_PAIR_NEST_START,
    DEVLINK_ATTR_FMSG_ARR_NEST_START,
    DEVLINK_ATTR_FMSG_NEST_END,
    DEVLINK_ATTR_FMSG_OBJ_NAME,
    DEVLINK_ATTR_FMSG_OBJ_VALUE_TYPE,
    DEVLINK_ATTR_FMSG_OBJ_VALUE_DATA,
    DEVLINK_ATTR_HEALTH_REPORTER,
    DEVLINK_ATTR_HEALTH_REPORTER_NAME,
    DEVLINK_ATTR_HEALTH_REPORTER_STATE,
    DEVLINK_ATTR_HEALTH_REPORTER_ERR_COUNT,
    DEVLINK_ATTR_HEALTH_REPORTER_RECOVER_COUNT,
    DEVLINK_ATTR_HEALTH_REPORTER_DUMP_TS,
    DEVLINK_ATTR_HEALTH_REPORTER_GRACEFUL_PERIOD,
    DEVLINK_ATTR_HEALTH_REPORTER_AUTO_RECOVER,
    DEVLINK_ATTR_FLASH_UPDATE_FILE_NAME,
    DEVLINK_ATTR_FLASH_UPDATE_COMPONENT,
    DEVLINK_ATTR_FLASH_UPDATE_STATUS_MSG,
    DEVLINK_ATTR_FLASH_UPDATE_STATUS_DONE,
    DEVLINK_ATTR_FLASH_UPDATE_STATUS_TOTAL,
    DEVLINK_ATTR_PORT_PCI_PF_NUMBER,
    DEVLINK_ATTR_PORT_PCI_VF_NUMBER,
    DEVLINK_ATTR_STATS,
    DEVLINK_ATTR_TRAP_NAME,
    DEVLINK_ATTR_TRAP_ACTION,
    DEVLINK_ATTR_TRAP_TYPE,
    DEVLINK_ATTR_TRAP_GENERIC,
    DEVLINK_ATTR_TRAP_METADATA,
    DEVLINK_ATTR_TRAP_GROUP_NAME,
    DEVLINK_ATTR_RELOAD_FAILED,
    DEVLINK_ATTR_HEALTH_REPORTER_DUMP_TS_NS,
    DEVLINK_ATTR_NETNS_FD,
    DEVLINK_ATTR_NETNS_PID,
    DEVLINK_ATTR_NETNS_ID,
    DEVLINK_ATTR_HEALTH_REPORTER_AUTO_DUMP,
    DEVLINK_ATTR_TRAP_POLICER_ID,
    DEVLINK_ATTR_TRAP_POLICER_RATE,
    DEVLINK_ATTR_TRAP_POLICER_BURST,
    DEVLINK_ATTR_PORT_FUNCTION,
    DEVLINK_ATTR_INFO_BOARD_SERIAL_NUMBER,
    DEVLINK_ATTR_PORT_LANES,
    DEVLINK_ATTR_PORT_SPLITTABLE,
    DEVLINK_ATTR_PORT_EXTERNAL,
    DEVLINK_ATTR_PORT_CONTROLLER_NUMBER,
    DEVLINK_ATTR_FLASH_UPDATE_STATUS_TIMEOUT,
    DEVLINK_ATTR_FLASH_UPDATE_OVERWRITE_MASK,
    DEVLINK_ATTR_RELOAD_ACTION,
    DEVLINK_ATTR_RELOAD_ACTIONS_PERFORMED,
    DEVLINK_ATTR_RELOAD_LIMITS,
    DEVLINK_ATTR_DEV_STATS,
    DEVLINK_ATTR_RELOAD_STATS,
    DEVLINK_ATTR_RELOAD_STATS_ENTRY,
    DEVLINK_ATTR_RELOAD_STATS_LIMIT,
    DEVLINK_ATTR_RELOAD_STATS_VALUE,
    DEVLINK_ATTR_REMOTE_RELOAD_STATS,
    DEVLINK_ATTR_RELOAD_ACTION_INFO,
    DEVLINK_ATTR_RELOAD_ACTION_STATS,
    DEVLINK_ATTR_PORT_PCI_SF_NUMBER,
    DEVLINK_ATTR_RATE_TYPE,
    DEVLINK_ATTR_RATE_TX_SHARE,
    DEVLINK_ATTR_RATE_TX_MAX,
    DEVLINK_ATTR_RATE_NODE_NAME,
    DEVLINK_ATTR_RATE_PARENT_NODE_NAME,
    DEVLINK_ATTR_REGION_MAX_SNAPSHOTS,
};
use crate::attr::{GenlDevlinkAttrs, attr_model, models_of, lemma_models_of_push};
use crate::model::{
    AttrValue, WireErr, parse_spec, parse_children_spec, text_body, align4,
};

verus! {

/// A decode failure. `UnknownAttribute` names a wire type code outside the
/// closed table; `InvalidValue` names a code whose payload bytes do not match
/// the shape the table assigns to it. The `reason` is a diagnostic for human
/// readers and is not part of the stated contract.
#[derive(Debug, PartialEq, Eq)]
pub enum DecodeError {
    UnknownAttribute { tag: u16 },
    InvalidValue { tag: u16, reason: &'static str },
}

impl View for DecodeError {
    type V = WireErr;

    open spec fn view(&self) -> WireErr {
        match self {
            DecodeError::UnknownAttribute { tag } => WireErr::Unknown { tag: *tag },
            DecodeError::InvalidValue { tag, .. } => WireErr::Invalid { tag: *tag },
        }
    }
}

/// A decode outcome as the model sees it: the value's model on success, the
/// failure's kind and code otherwise.
pub open spec fn result_model(r: Result<GenlDevlinkAttrs, DecodeError>) -> Result<
    AttrValue,
    WireErr,
> {
    match r {
        Ok(v) => Ok(attr_model(v)),
        Err(e) => Err(e@),
    }
}

/// Relies on core::str::from_utf8: it returns `Ok` exactly when the input is
/// valid UTF-8, and the string slice it returns is backed by exactly the
/// input bytes.
#[verifier::external_body]
fn str_from_utf8(bytes: &[u8]) -> (r: Option<&str>)
    ensures
        r is Some <==> valid_utf8(bytes@),
        r matches Some(s) ==> encode_utf8(s@) == bytes@,
{
    core::str::from_utf8(bytes).ok()
}

fn parse_u8_payload(tag: u16, payload: &[u8]) -> (r: Result<u8, DecodeError>)
    ensures
        payload@.len() == 1 ==> (r matches Ok(v) && v == payload@[0]),
        payload@.len() != 1 ==> (r matches Err(e) && e@ == (WireErr::Invalid { tag })),
{
    if payload.len() == 1 {
        Ok(*slice_index_get(payload, 0))
    } else {
        Err(DecodeError::InvalidValue { tag, reason: "expected a 1-byte value" })
    }
}

fn parse_u16_payload(tag: u16, payload: &[u8]) -> (r: Result<u16, DecodeError>)
    ensures
        payload@.len() == 2 ==> (r matches Ok(v) && v == spec_u16_from_le_bytes(payload@)),
        payload@.len() != 2 ==> (r matches Err(e) && e@ == (WireErr::Invalid { tag })),
{
    if payload.len() == 2 {
        Ok(u16_from_le_bytes(payload))
    } else {
        Err(DecodeError::InvalidValue { tag, reason: "expected a 2-byte value" })
    }
}

fn parse_u32_payload(tag: u16, payload: &[u8]) -> (r: Result<u32, DecodeError>)
    ensures
        payload@.len() == 4 ==> (r matches Ok(v) && v == spec_u32_from_le_bytes(payload@)),
        payload@.len() != 4 ==> (r matches Err(e) && e@ == (WireErr::Invalid { tag })),
{
    if payload.len() == 4 {
        Ok(u32_from_le_bytes(payload))
    } else {
        Err(DecodeError::InvalidValue { tag, reason: "expected a 4-byte value" })
    }
}

fn parse_u64_payload(tag: u16, payload: &[u8]) -> (r: Result<u64, DecodeError>)
    ensures
        payload@.len() == 8 ==> (r matches Ok(v) && v == spec_u64_from_le_bytes(payload@)),
        payload@.len() != 8 ==> (r matches Err(e) && e@ == (WireErr::Invalid { tag })),
{
    if payload.len() == 8 {
        Ok(u64_from_le_bytes(payload))
    } else {
        Err(DecodeError::InvalidValue { tag, reason: "expected an 8-byte value" })
    }
}

fn parse_flag_payload(tag: u16, payload: &[u8]) -> (r: Result<bool, DecodeError>)
    ensures
        payload@.len() == 1 ==> (r matches Ok(b) && b == (payload@[0] != 0)),
        payload@.len() != 1 ==> (r matches Err(e) && e@ == (WireErr::Invalid { tag })),
{
    if payload.len() == 1 {
        Ok(*slice_index_get(payload, 0) != 0)
    } else {
        Err(DecodeError::InvalidValue { tag, reason: "expected a 1-byte flag" })
    }
}

fn parse_text_payload(tag: u16, payload: &[u8]) -> (r: Result<String, DecodeError>)
    ensures
        valid_utf8(text_body(payload@)) ==> (r matches Ok(s) && s@ == decode_utf8(
            text_body(payload@),
        )),
        !valid_utf8(text_body(payload@)) ==> (r matches Err(e) && e@ == (WireErr::Invalid {
            tag,
        })),
{
    let n = payload.len();
    let body: &[u8] = if n > 0 && *slice_index_get(payload, n - 1) == 0 {
        slice_subrange(payload, 0, n - 1)
    } else {
        payload
    };
    proof {
        assert(body@ == text_body(payload@));
    }
    match str_from_utf8(body) {
        Some(s) => {
            proof {
                encode_utf8_decode_utf8(s@);
            }
            Ok(s.to_owned())
        },
        None => Err(DecodeError::InvalidValue { tag, reason: "text payload is not valid UTF-8" }),
    }
}

/// Walks the sibling attributes inside a nested payload, decoding each in
/// turn; a malformed header fails with the parent's code, and the first
/// child failure is returned as found.
pub(crate) fn parse_children(ptag: u16, payload: &[u8]) -> (r: Result<
    Vec<GenlDevlinkAttrs>,
    DecodeError,
>)
    ensures
        match r {
            Ok(vs) => parse_children_spec(ptag, payload@) == Ok::<Seq<AttrValue>, WireErr>(
                models_of(vs@),
            ),
            Err(e) => parse_children_spec(ptag, payload@) == Err::<Seq<AttrValue>, WireErr>(e@),
        },
    decreases payload@.len(), 0int,
{
    let n = payload.len();
    let mut out: Vec<GenlDevlinkAttrs> = Vec::new();
    let mut pos: usize = 0;
    proof {
        assert(payload@.subrange(0, n as int) =~= payload@);
        match parse_children_spec(ptag, payload@) {
            Ok(rest) => {
                assert(models_of(out@) + rest =~= rest);
            },
            Err(_) => {},
        }
    }
    while pos < n
        invariant
            pos <= n,
            n == payload@.len(),
            match parse_children_spec(ptag, payload@.subrange(pos as int, n as int)) {
                Ok(rest) => parse_children_spec(ptag, payload@) == Ok::<Seq<AttrValue>, WireErr>(
                    models_of(out@) + rest,
                ),
                Err(e) => parse_children_spec(ptag, payload@) == Err::<Seq<AttrValue>, WireErr>(e),
            },
        decreases n - pos,
    {
        let ghost suffix = payload@.subrange(pos as int, n as int);
        let rem = n - pos;
        if rem < 4 {
            return Err(DecodeError::InvalidValue {
                tag: ptag,
                reason: "truncated attribute header in nested payload",
            });
        }
        let lf_slice = slice_subrange(payload, pos, pos + 2);
        let len_field = u16_from_le_bytes(lf_slice) as usize;
        proof {
            assert(lf_slice@ =~= suffix.subrange(0, 2));
        }
        if len_field < 4 || len_field > rem {
            return Err(DecodeError::InvalidValue {
                tag: ptag,
                reason: "attribute length field out of range in nested payload",
            });
        }
        let tf_slice = slice_subrange(payload, pos + 2, pos + 4);
        let ctag = u16_from_le_bytes(tf_slice) & NLA_TYPE_MASK;
        proof {
            assert(tf_slice@ =~= suffix.subrange(2, 4));
        }
        let child_slice = slice_subrange(payload, pos + 4, pos + len_field);
        proof {
            assert(child_slice@ =~= suffix.subrange(4, len_field as int));
        }
        match GenlDevlinkAttrs::parse(ctag, child_slice) {
            Err(e) => {
                return Err(e);
            },
            Ok(v) => {
                let ghost out0 = out@;
                out.push(v);
                let r4 = len_field % 4;
                let aligned = if r4 == 0 { len_field } else { len_field + (4 - r4) };
                let newpos = if aligned >= rem { n } else { pos + aligned };
                proof {
                    assert(aligned == align4(len_field as int));
                    let rest = payload@.subrange(newpos as int, n as int);
                    if aligned >= rem {
                        assert(rest =~= Seq::<u8>::empty());
                    } else {
                        assert(suffix.subrange(align4(len_field as int), suffix.len() as int)
                            =~= rest);
                    }
                    lemma_models_of_push(out0, v);
                    match parse_children_spec(ptag, rest) {
                        Ok(r2) => {
                            assert((models_of(out0) + seq![attr_model(v)]) + r2 =~= models_of(
                                out0,
                            ) + (seq![attr_model(v)] + r2));
                        },
                        Err(_) => {},
                    }
                }
                pos = newpos;
            },
        }
    }
    proof {
        assert(payload@.subrange(pos as int, n as int) =~= Seq::<u8>::empty());
        assert(models_of(out@) + Seq::<AttrValue>::empty() =~= models_of(out@));
    }
    Ok(out)
}

impl GenlDevlinkAttrs {
    /// Decodes one attribute from its wire type code and payload bytes: the
    /// total dispatch over the closed table. Exactly the inputs the model
    /// decoder accepts are accepted, producing exactly the value it names;
    /// a code outside the table fails with `UnknownAttribute`, a payload of
    /// the wrong shape with `InvalidValue`.
    #[verifier::rlimit(100)]
    pub fn parse(tag: u16, payload: &[u8]) -> (r: Result<GenlDevlinkAttrs, DecodeError>)
        ensures
            result_model(r) == parse_spec(tag, payload@),
        decreases payload@.len(), 1int,
    {
        match tag {
            DEVLINK_ATTR_BUS_NAME => match parse_text_payload(tag, payload) {
                Ok(v) => Ok(GenlDevlinkAttrs::BusName(v)),
                Err(e) => Err(e),
            },
            DEVLINK_ATTR_LOCATION => match parse_text_payload(tag, payload) {
                Ok(v) => Ok(GenlDevlinkAttrs::Location(v)),
                Err(e) => Err(e),
            },
            DEVLINK_ATTR_PORT_INDEX => match parse_u32_payload(tag, payload) {
                Ok(v) => Ok(GenlDevlinkAttrs::PortIndex(v)),
                Err(e) => Err(e),
            },
            DEVLINK_ATTR_PORT_TYPE => match parse_u16_payload(tag, payload) {
                Ok(v) => Ok(GenlDevlinkAttrs::PortType(v)),
                Err(e) => Err(e),
            },
            DEVLINK_ATTR_DESIRED_TYPE => match parse_u16_payload(tag, payload) {
                Ok(v) => Ok(GenlDevlinkAttrs::DesiredType(v)),
                Err(e) => Err(e),
            },
            DEVLINK_ATTR_NETDEV_IF_INDEX => match parse_u32_payload(tag, payload) {
                Ok(v) => Ok(GenlDevlinkAttrs::NetdevIndex(v)),
                Err(e) => Err(e),
            },
            DEVLINK_ATTR_NETDEV_NAME => match parse_text_payload(tag, payload) {
                Ok(v) => Ok(GenlDevlinkAttrs::NetdevName(v)),
                Err(e) => Err(e),
            },
            DEVLINK_ATTR_PORT_IBDEV_NAME => match parse_text_payload(tag, payload) {
                Ok(v) => Ok(GenlDevlinkAttrs::PortIbdevName(v)),
                Err(e) => Err(e),
            },
            DEVLINK_ATTR_PORT_SPLIT_COUNT => match parse_u32_payload(tag, payload) {
                Ok(v) => Ok(GenlDevlinkAttrs::PortSplitCount(v)),
                Err(e) => Err(e),
            },
            DEVLINK_ATTR_PORT_SPLIT_GROUP => match parse_u32_payload(tag, payload) {
                Ok(v) => Ok(GenlDevlinkAttrs::PortSplitGroup(v)),
                Err(e) => Err(e),
            },
            DEVLINK_ATTR_SB_INDEX => match parse_u32_payload(tag, payload) {
                Ok(v) => Ok(GenlDevlinkAttrs::SbIndex(v)),
                Err(e) => Err(e),
            },
            DEVLINK_ATTR_SB_SIZE => match parse_u32_payload(tag, payload) {
                Ok(v) => Ok(GenlDevlinkAttrs::SbSize(v)),
                Err(e) => Err(e),
            },
            DEVLINK_ATTR_SB_INGRESS_POOL_COUNT => match parse_u16_payload(tag, payload) {
                Ok(v) => Ok(GenlDevlinkAttrs::SbIngressPoolCount(v)),
                Err(e) => Err(e),
            },
            DEVLINK_ATTR_SB_EGRESS_POOL_COUNT => match parse_u16_payload(tag, payload) {
                Ok(v) => Ok(GenlDevlinkAttrs::SbEgressPoolCount(v)),
                Err(e) => Err(e),
            },
            DEVLINK_ATTR_SB_INGRESS_TC_COUNT => match parse_u16_payload(tag, payload) {
                Ok(v) => Ok(GenlDevlinkAttrs::SbIngressTcCount(v)),
                Err(e) => Err(e),
            },
            DEVLINK_ATTR_SB_EGRESS_TC_COUNT => match parse_u16_payload(tag, payload) {
                Ok(v) => Ok(GenlDevlinkAttrs::SbEgressTcCount(v)),
                Err(e) => Err(e),
            },
            DEVLINK_ATTR_SB_POOL_INDEX => match parse_u16_payload(tag, payload) {
                Ok(v) => Ok(GenlDevlinkAttrs::SbPoolIndex(v)),
                Err(e) => Err(e),
            },
            DEVLINK_ATTR_SB_POOL_TYPE => match parse_u8_payload(tag, payload) {
                Ok(v) => Ok(GenlDevlinkAttrs::SbPoolType(v)),
                Err(e) => Err(e),
            },
            DEVLINK_ATTR_SB_POOL_SIZE => match parse_u32_payload(tag, payload) {
                Ok(v) => Ok(GenlDevlinkAttrs::SbPoolSize(v)),
                Err(e) => Err(e),
            },
            DEVLINK_ATTR_SB_POOL_THRESHOLD_TYPE => match parse_u8_payload(tag, payload) {
                Ok(v) => Ok(GenlDevlinkAttrs::SbPoolThresholdType(v)),
                Err(e) => Err(e),
            },
            DEVLINK_ATTR_SB_THRESHOLD => match parse_u32_payload(tag, payload) {
                Ok(v) => Ok(GenlDevlinkAttrs::SbPoolThreshold(v)),
                Err(e) => Err(e),
            },
            DEVLINK_ATTR_SB_TC_INDEX => match parse_u16_payload(tag, payload) {
                Ok(v) => Ok(GenlDevlinkAttrs::SbTcIndex(v)),
                Err(e) => Err(e),
            },
            DEVLINK_ATTR_SB_OCC_CUR => match parse_u32_payload(tag, payload) {
                Ok(v) => Ok(GenlDevlinkAttrs::SbOccCur(v)),
                Err(e) => Err(e),
            },
            DEVLINK_ATTR_SB_OCC_MAX => match parse_u32_payload(tag, payload) {
                Ok(v) => Ok(GenlDevlinkAttrs::SbOccMax(v)),
                Err(e) => Err(e),
            },
            DEVLINK_ATTR_ESWITCH_MODE => match parse_u16_payload(tag, payload) {
                Ok(v) => Ok(GenlDevlinkAttrs::EswitchMode(v)),
                Err(e) => Err(e),
            },
            DEVLINK_ATTR_ESWITCH_INLINE_MODE => match parse_u8_payload(tag, payload) {
                Ok(v) => Ok(GenlDevlinkAttrs::EswitchInlineMode(v)),
                Err(e) => Err(e),
            },
            DEVLINK_ATTR_DPIPE_TABLES => match parse_children(tag, payload) {
                Ok(v) => Ok(GenlDevlinkAttrs::DpipeTables(v)),
                Err(e) => Err(e),
            },
            DEVLINK_ATTR_DPIPE_TABLE => match parse_children(tag, payload) {
                Ok(v) => Ok(GenlDevlinkAttrs::DpipeTable(v)),
                Err(e) => Err(e),
            },
            DEVLINK_ATTR_DPIPE_TABLE_NAME => match parse_text_payload(tag, payload) {
                Ok(v) => Ok(GenlDevlinkAttrs::DpipeTableName(v)),
                Err(e) => Err(e),
            },
            DEVLINK_ATTR_DPIPE_TABLE_SIZE => match parse_u64_payload(tag, payload) {
                Ok(v) => Ok(GenlDevlinkAttrs::DpipeTableSize(v)),
                Err(e) => Err(e),
            },
            DEVLINK_ATTR_DPIPE_TABLE_MATCHES => match parse_children(tag, payload) {
                Ok(v) => Ok(GenlDevlinkAttrs::DpipeTableMatches(v)),
                Err(e) => Err(e),
            },
            DEVLINK_ATTR_DPIPE_TABLE_ACTIONS => match parse_children(tag, payload) {
                Ok(v) => Ok(GenlDevlinkAttrs::DpipeTableActions(v)),
                Err(e) => Err(e),
            },
            DEVLINK_ATTR_DPIPE_TABLE_COUNTERS_ENABLED => match parse_u8_payload(tag, payload) {
                Ok(v) => Ok(GenlDevlinkAttrs::DpipeTableCountersEnabled(v)),
                Err(e) => Err(e),
            },
            DEVLINK_ATTR_DPIPE_ENTRIES => match parse_children(tag, payload) {
                Ok(v) => Ok(GenlDevlinkAttrs::DpipeEntries(v)),
                Err(e) => Err(e),
            },
            DEVLINK_ATTR_DPIPE_ENTRY => match parse_children(tag, payload) {
                Ok(v) => Ok(GenlDevlinkAttrs::DpipeEntry(v)),
                Err(e) => Err(e),
            },
            DEVLINK_ATTR_DPIPE_ENTRY_INDEX => match parse_u64_payload(tag, payload) {
                Ok(v) => Ok(GenlDevlinkAttrs::DpipeEntryIndex(v)),
                Err(e) => Err(e),
            },
            DEVLINK_ATTR_DPIPE_ENTRY_MATCH_VALUES => match parse_children(tag, payload) {
                Ok(v) => Ok(GenlDevlinkAttrs::DpipeEntryMatchValues(v)),
                Err(e) => Err(e),
            },
            DEVLINK_ATTR_DPIPE_ENTRY_ACTION_VALUES => match parse_children(tag, payload) {
                Ok(v) => Ok(GenlDevlinkAttrs::DpipeEntryActionValues(v)),
                Err(e) => Err(e),
            },
            DEVLINK_ATTR_DPIPE_ENTRY_COUNTER => match parse_u64_payload(tag, payload) {
                Ok(v) => Ok(GenlDevlinkAttrs::DpipeEntryCounter(v)),
                Err(e) => Err(e),
            },
            DEVLINK_ATTR_DPIPE_MATCH => match parse_children(tag, payload) {
                Ok(v) => Ok(GenlDevlinkAttrs::DpipeMatch(v)),
                Err(e) => Err(e),
            },
            DEVLINK_ATTR_DPIPE_MATCH_VALUE => match parse_children(tag, payload) {
                Ok(v) => Ok(GenlDevlinkAttrs::DpipeMatchValue(v)),
                Err(e) => Err(e),
            },
            DEVLINK_ATTR_DPIPE_MATCH_TYPE => match parse_u32_payload(tag, payload) {
                Ok(v) => Ok(GenlDevlinkAttrs::DpipeMatchType(v)),
                Err(e) => Err(e),
            },
            DEVLINK_ATTR_DPIPE_ACTION => match parse_children(tag, payload) {
                Ok(v) => Ok(GenlDevlinkAttrs::DpipeAction(v)),
                Err(e) => Err(e),
            },
            DEVLINK_ATTR_DPIPE_ACTION_VALUE => match parse_children(tag, payload) {
                Ok(v) => Ok(GenlDevlinkAttrs::DpipeActionValue(v)),
                Err(e) => Err(e),
            },
            DEVLINK_ATTR_DPIPE_ACTION_TYPE => match parse_u32_payload(tag, payload) {
                Ok(v) => Ok(GenlDevlinkAttrs::DpipeActionType(v)),
                Err(e) => Err(e),
            },
            DEVLINK_ATTR_DPIPE_VALUE => match parse_u32_payload(tag, payload) {
                Ok(v) => Ok(GenlDevlinkAttrs::DpipeValue(v)),
                Err(e) => Err(e),
            },
            DEVLINK_ATTR_DPIPE_VALUE_MASK => match parse_u32_payload(tag, payload) {
                Ok(v) => Ok(GenlDevlinkAttrs::DpipeValueMask(v)),
                Err(e) => Err(e),
            },
            DEVLINK_ATTR_DPIPE_VALUE_MAPPING => match parse_u32_payload(tag, payload) {
                Ok(v) => Ok(GenlDevlinkAttrs::DpipeValueMapping(v)),
                Err(e) => Err(e),
            },
            DEVLINK_ATTR_DPIPE_HEADERS => match parse_children(tag, payload) {
                Ok(v) => Ok(GenlDevlinkAttrs::DpipeHeaders(v)),
                Err(e) => Err(e),
            },
            DEVLINK_ATTR_DPIPE_HEADER => match parse_children(tag, payload) {
                Ok(v) => Ok(GenlDevlinkAttrs::DpipeHader(v)),
                Err(e) => Err(e),
            },
            DEVLINK_ATTR_DPIPE_HEADER_NAME => match parse_text_payload(tag, payload) {
                Ok(v) => Ok(GenlDevlinkAttrs::DpipeHeaderName(v)),
                Err(e) => Err(e),
            },
            DEVLINK_ATTR_DPIPE_HEADER_ID => match parse_u32_payload(tag, payload) {
                Ok(v) => Ok(GenlDevlinkAttrs::DpipeHeaderId(v)),
                Err(e) => Err(e),
            },
            DEVLINK_ATTR_DPIPE_HEADER_FIELDS => match parse_children(tag, payload) {
                Ok(v) => Ok(GenlDevlinkAttrs::DpipeHeaderFields(v)),
                Err(e) => Err(e),
            },
            DEVLINK_ATTR_DPIPE_HEADER_GLOBAL => match parse_u8_payload(tag, payload) {
                Ok(v) => Ok(GenlDevlinkAttrs::DpipeHeaderGlobal(v)),
                Err(e) => Err(e),
            },
            DEVLINK_ATTR_DPIPE_HEADER_INDEX => match parse_u32_payload(tag, payload) {
                Ok(v) => Ok(GenlDevlinkAttrs::DpipeHeaderIndex(v)),
                Err(e) => Err(e),
            },
            DEVLINK_ATTR_DPIPE_FIELD => match parse_children(tag, payload) {
                Ok(v) => Ok(GenlDevlinkAttrs::DpipeField(v)),
                Err(e) => Err(e),
            },
            DEVLINK_ATTR_DPIPE_FIELD_NAME => match parse_text_payload(tag, payload) {
                Ok(v) => Ok(GenlDevlinkAttrs::DpipeFieldName(v)),
                Err(e) => Err(e),
            },
            DEVLINK_ATTR_DPIPE_FIELD_ID => match parse_u32_payload(tag, payload) {
                Ok(v) => Ok(GenlDevlinkAttrs::DpipeFieldId(v)),
                Err(e) => Err(e),
            },
            DEVLINK_ATTR_DPIPE_FIELD_BITWIDTH => match parse_u32_payload(tag, payload) {
                Ok(v) => Ok(GenlDevlinkAttrs::DpipeFieldBitwidth(v)),
                Err(e) => Err(e),
            },
            DEVLINK_ATTR_DPIPE_FIELD_MAPPING_TYPE => match parse_u32_payload(tag, payload) {
                Ok(v) => Ok(GenlDevlinkAttrs::DpipeFieldMappingType(v)),
                Err(e) => Err(e),
            },
            DEVLINK_ATTR_ESWITCH_ENCAP_MODE => match parse_u8_payload(tag, payload) {
                Ok(v) => Ok(GenlDevlinkAttrs::EswitchEncapMode(v)),
                Err(e) => Err(e),
            },
            DEVLINK_ATTR_RESOURCE_LIST => match parse_children(tag, payload) {
                Ok(v) => Ok(GenlDevlinkAttrs::ResourceList(v)),
                Err(e) => Err(e),
            },
            DEVLINK_ATTR_RESOURCE => match parse_children(tag, payload) {
                Ok(v) => Ok(GenlDevlinkAttrs::Resource(v)),
                Err(e) => Err(e),
            },
            DEVLINK_ATTR_RESOURCE_NAME => match parse_text_payload(tag, payload) {
                Ok(v) => Ok(GenlDevlinkAttrs::ResoureceName(v)),
                Err(e) => Err(e),
            },
            DEVLINK_ATTR_RESOURCE_ID => match parse_u64_payload(tag, payload) {
                Ok(v) => Ok(GenlDevlinkAttrs::ResourceId(v)),
                Err(e) => Err(e),
            },
            DEVLINK_ATTR_RESOURCE_SIZE => match parse_u64_payload(tag, payload) {
                Ok(v) => Ok(GenlDevlinkAttrs::ResourceSize(v)),
                Err(e) => Err(e),
            },
            DEVLINK_ATTR_RESOURCE_SIZE_NEW => match parse_u64_payload(tag, payload) {
                Ok(v) => Ok(GenlDevlinkAttrs::ResourceSizeNew(v)),
                Err(e) => Err(e),
            },
            DEVLINK_ATTR_RESOURCE_SIZE_VALID => match parse_u8_payload(tag, payload) {
                Ok(v) => Ok(GenlDevlinkAttrs::ResourceSizeValid(v)),
                Err(e) => Err(e),
            },
            DEVLINK_ATTR_RESOURCE_SIZE_MIN => match parse_u64_payload(tag, payload) {
                Ok(v) => Ok(GenlDevlinkAttrs::ResourceSizeMin(v)),
                Err(e) => Err(e),
            },
            DEVLINK_ATTR_RESOURCE_SIZE_MAX => match parse_u64_payload(tag, payload) {
                Ok(v) => Ok(GenlDevlinkAttrs::ResourceSizeMax(v)),
                Err(e) => Err(e),
            },
            DEVLINK_ATTR_RESOURCE_SIZE_GRAN => match parse_u64_payload(tag, payload) {
                Ok(v) => Ok(GenlDevlinkAttrs::ResourceSizeGran(v)),
                Err(e) => Err(e),
            },
            DEVLINK_ATTR_RESOURCE_UNIT => match parse_u8_payload(tag, payload) {
                Ok(v) => Ok(GenlDevlinkAttrs::ResourceUnit(v)),
                Err(e) => Err(e),
            },
            DEVLINK_ATTR_RESOURCE_OCC => match parse_u64_payload(tag, payload) {
                Ok(v) => Ok(GenlDevlinkAttrs::ResourceOcc(v)),
                Err(e) => Err(e),
            },
            DEVLINK_ATTR_DPIPE_TABLE_RESOURCE_ID => match parse_u64_payload(tag, payload) {
                Ok(v) => Ok(GenlDevlinkAttrs::DpipeTableResourceId(v)),
                Err(e) => Err(e),
            },
            DEVLINK_ATTR_DPIPE_TABLE_RESOURCE_UNITS => match parse_u64_payload(tag, payload) {
                Ok(v) => Ok(GenlDevlinkAttrs::DpipeTableResourceUnit(v)),
                Err(e) => Err(e),
            },
            DEVLINK_ATTR_PORT_FLAVOUR => match parse_u16_payload(tag, payload) {
                Ok(v) => Ok(GenlDevlinkAttrs::PortFlavour(v)),
                Err(e) => Err(e),
            },
            DEVLINK_ATTR_PORT_NUMBER => match parse_u32_payload(tag, payload) {
                Ok(v) => Ok(GenlDevlinkAttrs::PortNumber(v)),
                Err(e) => Err(e),
            },
            DEVLINK_ATTR_PARAM => match parse_children(tag, payload) {
                Ok(v) => Ok(GenlDevlinkAttrs::Param(v)),
                Err(e) => Err(e),
            },
            DEVLINK_ATTR_PARAM_NAME => match parse_text_payload(tag, payload) {
                Ok(v) => Ok(GenlDevlinkAttrs::ParamName(v)),
                Err(e) => Err(e),
            },
            DEVLINK_ATTR_PARAM_GENERIC => match parse_flag_payload(tag, payload) {
                Ok(v) => Ok(GenlDevlinkAttrs::ParamGeneric(v)),
                Err(e) => Err(e),
            },
            DEVLINK_ATTR_PARAM_TYPE => match parse_u8_payload(tag, payload) {
                Ok(v) => Ok(GenlDevlinkAttrs::ParamType(v)),
                Err(e) => Err(e),
            },
            DEVLINK_ATTR_PARAM_VALUES_LIST => match parse_children(tag, payload) {
                Ok(v) => Ok(GenlDevlinkAttrs::ParamValueList(v)),
                Err(e) => Err(e),
            },
            DEVLINK_ATTR_PARAM_VALUE => match parse_u64_payload(tag, payload) {
                Ok(v) => Ok(GenlDevlinkAttrs::ParamValue(v)),
                Err(e) => Err(e),
            },
            DEVLINK_ATTR_PARAM_VALUE_DATA => match parse_children(tag, payload) {
                Ok(v) => Ok(GenlDevlinkAttrs::ParamValueData(v)),
                Err(e) => Err(e),
            },
            DEVLINK_ATTR_PARAM_VALUE_CMODE => match parse_u8_payload(tag, payload) {
                Ok(v) => Ok(GenlDevlinkAttrs::ParamValueCmode(v)),
                Err(e) => Err(e),
            },
            DEVLINK_ATTR_REGION_NAME => match parse_text_payload(tag, payload) {
                Ok(v) => Ok(GenlDevlinkAttrs::RegionName(v)),
                Err(e) => Err(e),
            },
            DEVLINK_ATTR_REGION_SIZE => match parse_u64_payload(tag, payload) {
                Ok(v) => Ok(GenlDevlinkAttrs::RegionSize(v)),
                Err(e) => Err(e),
            },
            DEVLINK_ATTR_REGION_SNAPSHOTS => match parse_children(tag, payload) {
                Ok(v) => Ok(GenlDevlinkAttrs::RegionSnapshots(v)),
                Err(e) => Err(e),
            },
            DEVLINK_ATTR_REGION_SNAPSHOT => match parse_children(tag, payload) {
                Ok(v) => Ok(GenlDevlinkAttrs::RegionSnapshot(v)),
                Err(e) => Err(e),
            },
            DEVLINK_ATTR_REGION_SNAPSHOT_ID => match parse_u32_payload(tag, payload) {
                Ok(v) => Ok(GenlDevlinkAttrs::RegionSnapshotId(v)),
                Err(e) => Err(e),
            },
            DEVLINK_ATTR_REGION_CHUNKS => match parse_children(tag, payload) {
                Ok(v) => Ok(GenlDevlinkAttrs::RegionChunks(v)),
                Err(e) => Err(e),
            },
            DEVLINK_ATTR_REGION_CHUNK => match parse_children(tag, payload) {
                Ok(v) => Ok(GenlDevlinkAttrs::RegionChunk(v)),
                Err(e) => Err(e),
            },
            DEVLINK_ATTR_REGION_CHUNK_DATA => Ok(GenlDevlinkAttrs::RegionChunkData(slice_to_vec(payload))),
            DEVLINK_ATTR_REGION_CHUNK_ADDR => match parse_u64_payload(tag, payload) {
                Ok(v) => Ok(GenlDevlinkAttrs::RegionChunkOffset(v)),
                Err(e) => Err(e),
            },
            DEVLINK_ATTR_REGION_CHUNK_LEN => match parse_u64_payload(tag, payload) {
                Ok(v) => Ok(GenlDevlinkAttrs::RegionChunkSize(v)),
                Err(e) => Err(e),
            },
            DEVLINK_ATTR_INFO_DRIVER_NAME => match parse_text_payload(tag, payload) {
                Ok(v) => Ok(GenlDevlinkAttrs::InfoDriverName(v)),
                Err(e) => Err(e),
            },
            DEVLINK_ATTR_INFO_SERIAL_NUMBER => match parse_text_payload(tag, payload) {
                Ok(v) => Ok(GenlDevlinkAttrs::InfoSerialNo(v)),
                Err(e) => Err(e),
            },
            DEVLINK_ATTR_INFO_VERSION_FIXED => match parse_children(tag, payload) {
                Ok(v) => Ok(GenlDevlinkAttrs::InfoVersionFixed(v)),
                Err(e) => Err(e),
            },
            DEVLINK_ATTR_INFO_VERSION_RUNNING => match parse_children(tag, payload) {
                Ok(v) => Ok(GenlDevlinkAttrs::InfoVersionRunning(v)),
                Err(e) => Err(e),
            },
            DEVLINK_ATTR_INFO_VERSION_STORED => match parse_children(tag, payload) {
                Ok(v) => Ok(GenlDevlinkAttrs::InfoVersionStored(v)),
                Err(e) => Err(e),
            },
            DEVLINK_ATTR_INFO_VERSION_NAME => match parse_text_payload(tag, payload) {
                Ok(v) => Ok(GenlDevlinkAttrs::InfoVersionName(v)),
                Err(e) => Err(e),
            },
            DEVLINK_ATTR_INFO_VERSION_VALUE => match parse_text_payload(tag, payload) {
                Ok(v) => Ok(GenlDevlinkAttrs::InfoVersionValue(v)),
                Err(e) => Err(e),
            },
            DEVLINK_ATTR_SB_POOL_CELL_SIZE => match parse_u32_payload(tag, payload) {
                Ok(v) => Ok(GenlDevlinkAttrs::SbPoolCellSize(v)),
                Err(e) => Err(e),
            },
            DEVLINK_ATTR_FMSG => match parse_children(tag, payload) {
                Ok(v) => Ok(GenlDevlinkAttrs::Fmsg(v)),
                Err(e) => Err(e),
            },
            DEVLINK_ATTR_FMSG_OBJ_NEST_START => match parse_flag_payload(tag, payload) {
                Ok(v) => Ok(GenlDevlinkAttrs::FmsgObjNestStart(v)),
                Err(e) => Err(e),
            },
            DEVLINK_ATTR_FMSG_PAIR_NEST_START => match parse_flag_payload(tag, payload) {
                Ok(v) => Ok(GenlDevlinkAttrs::FmsgPairNestStart(v)),
                Err(e) => Err(e),
            },
            DEVLINK_ATTR_FMSG_ARR_NEST_START => match parse_flag_payload(tag, payload) {
                Ok(v) => Ok(GenlDevlinkAttrs::FmsgArrNestStart(v)),
                Err(e) => Err(e),
            },
            DEVLINK_ATTR_FMSG_NEST_END => match parse_flag_payload(tag, payload) {
                Ok(v) => Ok(GenlDevlinkAttrs::FmsgNestEnd(v)),
                Err(e) => Err(e),
            },
            DEVLINK_ATTR_FMSG_OBJ_NAME => match parse_text_payload(tag, payload) {
                Ok(v) => Ok(GenlDevlinkAttrs::FmsgObjName(v)),
                Err(e) => Err(e),
            },
            DEVLINK_ATTR_FMSG_OBJ_VALUE_TYPE => match parse_u8_payload(tag, payload) {
                Ok(v) => Ok(GenlDevlinkAttrs::FmsgObjValueType(v)),
                Err(e) => Err(e),
            },
            DEVLINK_ATTR_FMSG_OBJ_VALUE_DATA => match parse_children(tag, payload) {
                Ok(v) => Ok(GenlDevlinkAttrs::FmsgObjValueData(v)),
                Err(e) => Err(e),
            },
            DEVLINK_ATTR_HEALTH_REPORTER => match parse_children(tag, payload) {
                Ok(v) => Ok(GenlDevlinkAttrs::HealthReporter(v)),
                Err(e) => Err(e),
            },
            DEVLINK_ATTR_HEALTH_REPORTER_NAME => match parse_text_payload(tag, payload) {
                Ok(v) => Ok(GenlDevlinkAttrs::HealthReporterName(v)),
                Err(e) => Err(e),
            },
            DEVLINK_ATTR_HEALTH_REPORTER_STATE => match parse_u8_payload(tag, payload) {
                Ok(v) => Ok(GenlDevlinkAttrs::HealthReporterState(v)),
                Err(e) => Err(e),
            },
            DEVLINK_ATTR_HEALTH_REPORTER_ERR_COUNT => match parse_u64_payload(tag, payload) {
                Ok(v) => Ok(GenlDevlinkAttrs::HealthReporterErrCount(v)),
                Err(e) => Err(e),
            },
            DEVLINK_ATTR_HEALTH_REPORTER_RECOVER_COUNT => match parse_u64_payload(tag, payload) {
                Ok(v) => Ok(GenlDevlinkAttrs::HealthReporterRecoverCount(v)),
                Err(e) => Err(e),
            },
            DEVLINK_ATTR_HEALTH_REPORTER_DUMP_TS => match parse_u64_payload(tag, payload) {
                Ok(v) => Ok(GenlDevlinkAttrs::HealthReporterDumpTs(v)),
                Err(e) => Err(e),
            },
            DEVLINK_ATTR_HEALTH_REPORTER_GRACEFUL_PERIOD => match parse_u64_payload(tag, payload) {
                Ok(v) => Ok(GenlDevlinkAttrs::HealthReporterGracefulPeriod(v)),
                Err(e) => Err(e),
            },
            DEVLINK_ATTR_HEALTH_REPORTER_AUTO_RECOVER => match parse_u8_payload(tag, payload) {
                Ok(v) => Ok(GenlDevlinkAttrs::HealthReporterAucoRecover(v)),
                Err(e) => Err(e),
            },
            DEVLINK_ATTR_FLASH_UPDATE_FILE_NAME => match parse_text_payload(tag, payload) {
                Ok(v) => Ok(GenlDevlinkAttrs::FlashUpdateFileName(v)),
                Err(e) => Err(e),
            },
            DEVLINK_ATTR_FLASH_UPDATE_COMPONENT => match parse_text_payload(tag, payload) {
                Ok(v) => Ok(GenlDevlinkAttrs::FlashUpdateComponent(v)),
                Err(e) => Err(e),
            },
            DEVLINK_ATTR_FLASH_UPDATE_STATUS_MSG => match parse_text_payload(tag, payload) {
                Ok(v) => Ok(GenlDevlinkAttrs::FlashUpdateStatusMsg(v)),
                Err(e) => Err(e),
            },
            DEVLINK_ATTR_FLASH_UPDATE_STATUS_DONE => match parse_u64_payload(tag, payload) {
                Ok(v) => Ok(GenlDevlinkAttrs::FlashUpdateStatusDone(v)),
                Err(e) => Err(e),
            },
            DEVLINK_ATTR_FLASH_UPDATE_STATUS_TOTAL => match parse_u64_payload(tag, payload) {
                Ok(v) => Ok(GenlDevlinkAttrs::FlashUpdateStatusTotal(v)),
                Err(e) => Err(e),
            },
            DEVLINK_ATTR_PORT_PCI_PF_NUMBER => match parse_u16_payload(tag, payload) {
                Ok(v) => Ok(GenlDevlinkAttrs::PortPciPfNumber(v)),
                Err(e) => Err(e),
            },
            DEVLINK_ATTR_PORT_PCI_VF_NUMBER => match parse_u16_payload(tag, payload) {
                Ok(v) => Ok(GenlDevlinkAttrs::PortPciVfNumber(v)),
                Err(e) => Err(e),
            },
            DEVLINK_ATTR_STATS => match parse_children(tag, payload) {
                Ok(v) => Ok(GenlDevlinkAttrs::Stats(v)),
                Err(e) => Err(e),
            },
            DEVLINK_ATTR_TRAP_NAME => match parse_text_payload(tag, payload) {
                Ok(v) => Ok(GenlDevlinkAttrs::TrapName(v)),
                Err(e) => Err(e),
            },
            DEVLINK_ATTR_TRAP_ACTION => match parse_u8_payload(tag, payload) {
                Ok(v) => Ok(GenlDevlinkAttrs::TrapAction(v)),
                Err(e) => Err(e),
            },
            DEVLINK_ATTR_TRAP_TYPE => match parse_u8_payload(tag, payload) {
                Ok(v) => Ok(GenlDevlinkAttrs::TrapType(v)),
                Err(e) => Err(e),
            },
            DEVLINK_ATTR_TRAP_GENERIC => match parse_flag_payload(tag, payload) {
                Ok(v) => Ok(GenlDevlinkAttrs::TrapGeneric(v)),
                Err(e) => Err(e),
            },
            DEVLINK_ATTR_TRAP_METADATA => match parse_children(tag, payload) {
                Ok(v) => Ok(GenlDevlinkAttrs::TrapMetadata(v)),
                Err(e) => Err(e),
            },
            DEVLINK_ATTR_TRAP_GROUP_NAME => match parse_text_payload(tag, payload) {
                Ok(v) => Ok(GenlDevlinkAttrs::TrapGroupName(v)),
                Err(e) => Err(e),
            },
            DEVLINK_ATTR_RELOAD_FAILED => match parse_u8_payload(tag, payload) {
                Ok(v) => Ok(GenlDevlinkAttrs::ReloadStatus(v)),
                Err(e) => Err(e),
            },
            DEVLINK_ATTR_HEALTH_REPORTER_DUMP_TS_NS => match parse_u64_payload(tag, payload) {
                Ok(v) => Ok(GenlDevlinkAttrs::HealthReporterDumpTsNs(v)),
                Err(e) => Err(e),
            },
            DEVLINK_ATTR_NETNS_FD => match parse_u32_payload(tag, payload) {
                Ok(v) => Ok(GenlDevlinkAttrs::NetnsFd(v)),
                Err(e) => Err(e),
            },
            DEVLINK_ATTR_NETNS_PID => match parse_u32_payload(tag, payload) {
                Ok(v) => Ok(GenlDevlinkAttrs::NetnsPid(v)),
                Err(e) => Err(e),
            },
            DEVLINK_ATTR_NETNS_ID => match parse_u32_payload(tag, payload) {
                Ok(v) => Ok(GenlDevlinkAttrs::NetnsId(v)),
                Err(e) => Err(e),
            },
            DEVLINK_ATTR_HEALTH_REPORTER_AUTO_DUMP => match parse_u8_payload(tag, payload) {
                Ok(v) => Ok(GenlDevlinkAttrs::HealthReporterAutoDump(v)),
                Err(e) => Err(e),
            },
            DEVLINK_ATTR_TRAP_POLICER_ID => match parse_u32_payload(tag, payload) {
                Ok(v) => Ok(GenlDevlinkAttrs::TrapPolicerId(v)),
                Err(e) => Err(e),
            },
            DEVLINK_ATTR_TRAP_POLICER_RATE => match parse_u64_payload(tag, payload) {
                Ok(v) => Ok(GenlDevlinkAttrs::TrapPolicerRate(v)),
                Err(e) => Err(e),
            },
            DEVLINK_ATTR_TRAP_POLICER_BURST => match parse_u64_payload(tag, payload) {
                Ok(v) => Ok(GenlDevlinkAttrs::TrapPolicerBurst(v)),
                Err(e) => Err(e),
            },
            DEVLINK_ATTR_PORT_FUNCTION => match parse_children(tag, payload) {
                Ok(v) => Ok(GenlDevlinkAttrs::PortFunction(v)),
                Err(e) => Err(e),
            },
            DEVLINK_ATTR_INFO_BOARD_SERIAL_NUMBER => match parse_text_payload(tag, payload) {
                Ok(v) => Ok(GenlDevlinkAttrs::InfoBoardSerialNumber(v)),
                Err(e) => Err(e),
            },
            DEVLINK_ATTR_PORT_LANES => match parse_u32_payload(tag, payload) {
                Ok(v) => Ok(GenlDevlinkAttrs::PortLanes(v)),
                Err(e) => Err(e),
            },
            DEVLINK_ATTR_PORT_SPLITTABLE => match parse_u8_payload(tag, payload) {
                Ok(v) => Ok(GenlDevlinkAttrs::PortSplittable(v)),
                Err(e) => Err(e),
            },
            DEVLINK_ATTR_PORT_EXTERNAL => match parse_u8_payload(tag, payload) {
                Ok(v) => Ok(GenlDevlinkAttrs::PortExternal(v)),
                Err(e) => Err(e),
            },
            DEVLINK_ATTR_PORT_CONTROLLER_NUMBER => match parse_u32_payload(tag, payload) {
                Ok(v) => Ok(GenlDevlinkAttrs::PortControllerNo(v)),
                Err(e) => Err(e),
            },
            DEVLINK_ATTR_FLASH_UPDATE_STATUS_TIMEOUT => match parse_u32_payload(tag, payload) {
                Ok(v) => Ok(GenlDevlinkAttrs::FlashUpdateStatusTimeout(v)),
                Err(e) => Err(e),
            },
            DEVLINK_ATTR_FLASH_UPDATE_OVERWRITE_MASK => match parse_u32_payload(tag, payload) {
                Ok(v) => Ok(GenlDevlinkAttrs::FlashUpdateOverWriteMask(v)),
                Err(e) => Err(e),
            },
            DEVLINK_ATTR_RELOAD_ACTION => match parse_u8_payload(tag, payload) {
                Ok(v) => Ok(GenlDevlinkAttrs::ReloadAction(v)),
                Err(e) => Err(e),
            },
            DEVLINK_ATTR_RELOAD_ACTIONS_PERFORMED => match parse_u32_payload(tag, payload) {
                Ok(v) => Ok(GenlDevlinkAttrs::ReloadActionPerformed(v)),
                Err(e) => Err(e),
            },
            DEVLINK_ATTR_RELOAD_LIMITS => match parse_u32_payload(tag, payload) {
                Ok(v) => Ok(GenlDevlinkAttrs::ReloadLimits(v)),
                Err(e) => Err(e),
            },
            DEVLINK_ATTR_DEV_STATS => match parse_children(tag, payload) {
                Ok(v) => Ok(GenlDevlinkAttrs::DevStats(v)),
                Err(e) => Err(e),
            },
            DEVLINK_ATTR_RELOAD_STATS => match parse_children(tag, payload) {
                Ok(v) => Ok(GenlDevlinkAttrs::ReloadStats(v)),
                Err(e) => Err(e),
            },
            DEVLINK_ATTR_RELOAD_STATS_ENTRY => match parse_children(tag, payload) {
                Ok(v) => Ok(GenlDevlinkAttrs::ReloadStatsEntry(v)),
                Err(e) => Err(e),
            },
            DEVLINK_ATTR_RELOAD_STATS_LIMIT => match parse_u8_payload(tag, payload) {
                Ok(v) => Ok(GenlDevlinkAttrs::ReloadStatsLimit(v)),
                Err(e) => Err(e),
            },
            DEVLINK_ATTR_RELOAD_STATS_VALUE => match parse_u32_payload(tag, payload) {
                Ok(v) => Ok(GenlDevlinkAttrs::ReloadStatsValue(v)),
                Err(e) => Err(e),
            },
            DEVLINK_ATTR_REMOTE_RELOAD_STATS => match parse_children(tag, payload) {
                Ok(v) => Ok(GenlDevlinkAttrs::RemoteReloadStats(v)),
                Err(e) => Err(e),
            },
            DEVLINK_ATTR_RELOAD_ACTION_INFO => match parse_children(tag, payload) {
                Ok(v) => Ok(GenlDevlinkAttrs::ReloadActionInfo(v)),
                Err(e) => Err(e),
            },
            DEVLINK_ATTR_RELOAD_ACTION_STATS => match parse_children(tag, payload) {
                Ok(v) => Ok(GenlDevlinkAttrs::ReloadActionStats(v)),
                Err(e) => Err(e),
            },
            DEVLINK_ATTR_PORT_PCI_SF_NUMBER => match parse_u32_payload(tag, payload) {
                Ok(v) => Ok(GenlDevlinkAttrs::PortPciSfNo(v)),
                Err(e) => Err(e),
            },
            DEVLINK_ATTR_RATE_TYPE => match parse_u16_payload(tag, payload) {
                Ok(v) => Ok(GenlDevlinkAttrs::RateType(v)),
                Err(e) => Err(e),
            },
            DEVLINK_ATTR_RATE_TX_SHARE => match parse_u64_payload(tag, payload) {
                Ok(v) => Ok(GenlDevlinkAttrs::RateTxShare(v)),
                Err(e) => Err(e),
            },
            DEVLINK_ATTR_RATE_TX_MAX => match parse_u64_payload(tag, payload) {
                Ok(v) => Ok(GenlDevlinkAttrs::RateTxMax(v)),
                Err(e) => Err(e),
            },
            DEVLINK_ATTR_RATE_NODE_NAME => match parse_text_payload(tag, payload) {
                Ok(v) => Ok(GenlDevlinkAttrs::RateNodeName(v)),
                Err(e) => Err(e),
            },
            DEVLINK_ATTR_RATE_PARENT_NODE_NAME => match parse_text_payload(tag, payload) {
                Ok(v) => Ok(GenlDevlinkAttrs::RateParentNodeName(v)),
                Err(e) => Err(e),
            },
            DEVLINK_ATTR_REGION_MAX_SNAPSHOTS => match parse_u32_payload(tag, payload) {
                Ok(v) => Ok(GenlDevlinkAttrs::RegionMaxSnapshots(v)),
                Err(e) => Err(e),
            },
            _ => Err(DecodeError::UnknownAttribute { tag }),
        }
    }
}

} // verus!
