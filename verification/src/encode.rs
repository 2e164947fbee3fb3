//! The encoder: writes an attribute's payload bytes, or its fully framed
//! form, into a caller-owned buffer, exactly as the model prescribes.
use vstd::prelude::*;
use vstd::bytes::{u16_to_le_bytes, u32_to_le_bytes, u64_to_le_bytes};
use vstd::slice::slice_to_vec;
use vstd::utf8::encode_utf8;
use crate::tags::NLA_F_NESTED;
use crate::attr::{GenlDevlinkAttrs, models_of, attr_model, lemma_models_of_index};
use crate::model::{
    AttrPayload, payload_bytes, payload_len, framed_bytes, children_bytes, zeros, pad4,
    encodable, encodable_children, lemma_payload_len_nonneg, lemma_children_bytes_push,
};

verus! {

impl GenlDevlinkAttrs {
    /// Appends this value's payload bytes to `buffer`: exactly
    /// `value_len` bytes, laid out as `payload_bytes` states. For a nested
    /// value each child is framed in turn: header, payload, zeroed padding.
    pub fn emit_value(&self, buffer: &mut Vec<u8>)
        requires
            encodable(self@.payload),
        ensures
            final(buffer)@ == old(buffer)@ + payload_bytes(self@.payload),
        decreases *self, 0int,
    {
        match self {
            GenlDevlinkAttrs::SbPoolType(v) | GenlDevlinkAttrs::SbPoolThresholdType(v)
            | GenlDevlinkAttrs::EswitchInlineMode(v)
            | GenlDevlinkAttrs::DpipeTableCountersEnabled(v)
            | GenlDevlinkAttrs::DpipeHeaderGlobal(v) | GenlDevlinkAttrs::EswitchEncapMode(v)
            | GenlDevlinkAttrs::ResourceSizeValid(v) | GenlDevlinkAttrs::ResourceUnit(v)
            | GenlDevlinkAttrs::ParamType(v) | GenlDevlinkAttrs::ParamValueCmode(v)
            | GenlDevlinkAttrs::FmsgObjValueType(v) | GenlDevlinkAttrs::HealthReporterState(v)
            | GenlDevlinkAttrs::HealthReporterAucoRecover(v) | GenlDevlinkAttrs::TrapAction(v)
            | GenlDevlinkAttrs::TrapType(v) | GenlDevlinkAttrs::ReloadStatus(v)
            | GenlDevlinkAttrs::HealthReporterAutoDump(v) | GenlDevlinkAttrs::PortSplittable(v)
            | GenlDevlinkAttrs::PortExternal(v) | GenlDevlinkAttrs::ReloadAction(v)
            | GenlDevlinkAttrs::ReloadStatsLimit(v) => {
                buffer.push(*v);
                proof {
                    assert(old(buffer)@.push(*v) =~= old(buffer)@ + seq![*v]);
                }
            },
            GenlDevlinkAttrs::PortType(v) | GenlDevlinkAttrs::DesiredType(v)
            | GenlDevlinkAttrs::SbIngressPoolCount(v) | GenlDevlinkAttrs::SbEgressPoolCount(v)
            | GenlDevlinkAttrs::SbIngressTcCount(v) | GenlDevlinkAttrs::SbEgressTcCount(v)
            | GenlDevlinkAttrs::SbPoolIndex(v) | GenlDevlinkAttrs::SbTcIndex(v)
            | GenlDevlinkAttrs::EswitchMode(v) | GenlDevlinkAttrs::PortFlavour(v)
            | GenlDevlinkAttrs::PortPciPfNumber(v) | GenlDevlinkAttrs::PortPciVfNumber(v)
            | GenlDevlinkAttrs::RateType(v) => {
                let mut bs = u16_to_le_bytes(*v);
                buffer.append(&mut bs);
            },
            GenlDevlinkAttrs::PortIndex(v) | GenlDevlinkAttrs::NetdevIndex(v)
            | GenlDevlinkAttrs::PortSplitCount(v) | GenlDevlinkAttrs::PortSplitGroup(v)
            | GenlDevlinkAttrs::SbIndex(v) | GenlDevlinkAttrs::SbSize(v)
            | GenlDevlinkAttrs::SbPoolSize(v) | GenlDevlinkAttrs::SbPoolThreshold(v)
            | GenlDevlinkAttrs::SbOccCur(v) | GenlDevlinkAttrs::SbOccMax(v)
            | GenlDevlinkAttrs::DpipeMatchType(v) | GenlDevlinkAttrs::DpipeActionType(v)
            | GenlDevlinkAttrs::DpipeValue(v) | GenlDevlinkAttrs::DpipeValueMask(v)
            | GenlDevlinkAttrs::DpipeValueMapping(v) | GenlDevlinkAttrs::DpipeHeaderId(v)
            | GenlDevlinkAttrs::DpipeHeaderIndex(v) | GenlDevlinkAttrs::DpipeFieldId(v)
            | GenlDevlinkAttrs::DpipeFieldBitwidth(v)
            | GenlDevlinkAttrs::DpipeFieldMappingType(v) | GenlDevlinkAttrs::PortNumber(v)
            | GenlDevlinkAttrs::RegionSnapshotId(v) | GenlDevlinkAttrs::SbPoolCellSize(v)
            | GenlDevlinkAttrs::NetnsFd(v) | GenlDevlinkAttrs::NetnsPid(v)
            | GenlDevlinkAttrs::NetnsId(v) | GenlDevlinkAttrs::TrapPolicerId(v)
            | GenlDevlinkAttrs::PortLanes(v) | GenlDevlinkAttrs::PortControllerNo(v)
            | GenlDevlinkAttrs::FlashUpdateStatusTimeout(v)
            | GenlDevlinkAttrs::FlashUpdateOverWriteMask(v)
            | GenlDevlinkAttrs::ReloadActionPerformed(v) | GenlDevlinkAttrs::ReloadLimits(v)
            | GenlDevlinkAttrs::ReloadStatsValue(v) | GenlDevlinkAttrs::PortPciSfNo(v)
            | GenlDevlinkAttrs::RegionMaxSnapshots(v) => {
                let mut bs = u32_to_le_bytes(*v);
                buffer.append(&mut bs);
            },
            GenlDevlinkAttrs::DpipeTableSize(v) | GenlDevlinkAttrs::DpipeEntryIndex(v)
            | GenlDevlinkAttrs::DpipeEntryCounter(v) | GenlDevlinkAttrs::ResourceId(v)
            | GenlDevlinkAttrs::ResourceSize(v) | GenlDevlinkAttrs::ResourceSizeNew(v)
            | GenlDevlinkAttrs::ResourceSizeMin(v) | GenlDevlinkAttrs::ResourceSizeMax(v)
            | GenlDevlinkAttrs::ResourceSizeGran(v) | GenlDevlinkAttrs::ResourceOcc(v)
            | GenlDevlinkAttrs::DpipeTableResourceId(v)
            | GenlDevlinkAttrs::DpipeTableResourceUnit(v) | GenlDevlinkAttrs::ParamValue(v)
            | GenlDevlinkAttrs::RegionSize(v) | GenlDevlinkAttrs::RegionChunkOffset(v)
            | GenlDevlinkAttrs::RegionChunkSize(v) | GenlDevlinkAttrs::HealthReporterErrCount(v)
            | GenlDevlinkAttrs::HealthReporterRecoverCount(v)
            | GenlDevlinkAttrs::HealthReporterDumpTs(v)
            | GenlDevlinkAttrs::HealthReporterGracefulPeriod(v)
            | GenlDevlinkAttrs::FlashUpdateStatusDone(v)
            | GenlDevlinkAttrs::FlashUpdateStatusTotal(v)
            | GenlDevlinkAttrs::HealthReporterDumpTsNs(v) | GenlDevlinkAttrs::TrapPolicerRate(v)
            | GenlDevlinkAttrs::TrapPolicerBurst(v) | GenlDevlinkAttrs::RateTxShare(v)
            | GenlDevlinkAttrs::RateTxMax(v) => {
                let mut bs = u64_to_le_bytes(*v);
                buffer.append(&mut bs);
            },
            GenlDevlinkAttrs::ParamGeneric(v) | GenlDevlinkAttrs::FmsgObjNestStart(v)
            | GenlDevlinkAttrs::FmsgPairNestStart(v) | GenlDevlinkAttrs::FmsgArrNestStart(v)
            | GenlDevlinkAttrs::FmsgNestEnd(v) | GenlDevlinkAttrs::TrapGeneric(v) => {
                let byte: u8 = if *v { 1 } else { 0 };
                buffer.push(byte);
                proof {
                    assert(old(buffer)@.push(byte) =~= old(buffer)@ + seq![byte]);
                }
            },
            GenlDevlinkAttrs::BusName(v) | GenlDevlinkAttrs::Location(v)
            | GenlDevlinkAttrs::NetdevName(v) | GenlDevlinkAttrs::PortIbdevName(v)
            | GenlDevlinkAttrs::DpipeTableName(v) | GenlDevlinkAttrs::DpipeHeaderName(v)
            | GenlDevlinkAttrs::DpipeFieldName(v) | GenlDevlinkAttrs::ResoureceName(v)
            | GenlDevlinkAttrs::ParamName(v) | GenlDevlinkAttrs::RegionName(v)
            | GenlDevlinkAttrs::InfoDriverName(v) | GenlDevlinkAttrs::InfoSerialNo(v)
            | GenlDevlinkAttrs::InfoVersionName(v) | GenlDevlinkAttrs::InfoVersionValue(v)
            | GenlDevlinkAttrs::FmsgObjName(v) | GenlDevlinkAttrs::HealthReporterName(v)
            | GenlDevlinkAttrs::FlashUpdateFileName(v)
            | GenlDevlinkAttrs::FlashUpdateComponent(v)
            | GenlDevlinkAttrs::FlashUpdateStatusMsg(v) | GenlDevlinkAttrs::TrapName(v)
            | GenlDevlinkAttrs::TrapGroupName(v) | GenlDevlinkAttrs::InfoBoardSerialNumber(v)
            | GenlDevlinkAttrs::RateNodeName(v) | GenlDevlinkAttrs::RateParentNodeName(v) => {
                let mut bs = slice_to_vec(v.as_str().as_bytes());
                buffer.append(&mut bs);
                buffer.push(0u8);
                proof {
                    assert((old(buffer)@ + encode_utf8(v@)).push(0u8) =~= old(buffer)@ + (
                    encode_utf8(v@) + seq![0u8]));
                }
            },
            GenlDevlinkAttrs::RegionChunkData(v) => {
                let mut bs = slice_to_vec(v.as_slice());
                buffer.append(&mut bs);
            },
            GenlDevlinkAttrs::DpipeTables(v) | GenlDevlinkAttrs::DpipeTable(v)
            | GenlDevlinkAttrs::DpipeTableMatches(v) | GenlDevlinkAttrs::DpipeTableActions(v)
            | GenlDevlinkAttrs::DpipeEntries(v) | GenlDevlinkAttrs::DpipeEntry(v)
            | GenlDevlinkAttrs::DpipeEntryMatchValues(v)
            | GenlDevlinkAttrs::DpipeEntryActionValues(v) | GenlDevlinkAttrs::DpipeMatch(v)
            | GenlDevlinkAttrs::DpipeMatchValue(v) | GenlDevlinkAttrs::DpipeAction(v)
            | GenlDevlinkAttrs::DpipeActionValue(v) | GenlDevlinkAttrs::DpipeHeaders(v)
            | GenlDevlinkAttrs::DpipeHader(v) | GenlDevlinkAttrs::DpipeHeaderFields(v)
            | GenlDevlinkAttrs::DpipeField(v) | GenlDevlinkAttrs::ResourceList(v)
            | GenlDevlinkAttrs::Resource(v) | GenlDevlinkAttrs::Param(v)
            | GenlDevlinkAttrs::ParamValueList(v) | GenlDevlinkAttrs::ParamValueData(v)
            | GenlDevlinkAttrs::RegionSnapshots(v) | GenlDevlinkAttrs::RegionSnapshot(v)
            | GenlDevlinkAttrs::RegionChunks(v) | GenlDevlinkAttrs::RegionChunk(v)
            | GenlDevlinkAttrs::InfoVersionFixed(v) | GenlDevlinkAttrs::InfoVersionRunning(v)
            | GenlDevlinkAttrs::InfoVersionStored(v) | GenlDevlinkAttrs::Fmsg(v)
            | GenlDevlinkAttrs::FmsgObjValueData(v) | GenlDevlinkAttrs::HealthReporter(v)
            | GenlDevlinkAttrs::Stats(v) | GenlDevlinkAttrs::TrapMetadata(v)
            | GenlDevlinkAttrs::PortFunction(v) | GenlDevlinkAttrs::DevStats(v)
            | GenlDevlinkAttrs::ReloadStats(v) | GenlDevlinkAttrs::ReloadStatsEntry(v)
            | GenlDevlinkAttrs::RemoteReloadStats(v) | GenlDevlinkAttrs::ReloadActionInfo(v)
            | GenlDevlinkAttrs::ReloadActionStats(v) => {
                emit_children(v, buffer);
            },
        }
    }
}

/// Appends one fully framed attribute: a length field covering header and
/// payload, the type field with the nested flag when due, the payload, and
/// zero bytes up to the 4-byte alignment unit.
pub(crate) fn emit_framed(c: &GenlDevlinkAttrs, buffer: &mut Vec<u8>)
    requires
        encodable(c@.payload),
        4 + payload_len(c@.payload) <= 0xffff,
    ensures
        final(buffer)@ == old(buffer)@ + framed_bytes(c@),
    decreases *c, 1int,
{
    proof {
        lemma_payload_len_nonneg(c@.payload);
    }
    let len: usize = c.value_len();
    let len_field: u16 = (len as u16) + 4;
    let tag: u16 = c.kind();
    let type_field: u16 = if c.is_nested() { tag | NLA_F_NESTED } else { tag };
    let mut h1 = u16_to_le_bytes(len_field);
    let ghost h1s = h1@;
    buffer.append(&mut h1);
    let mut h2 = u16_to_le_bytes(type_field);
    let ghost h2s = h2@;
    buffer.append(&mut h2);
    c.emit_value(buffer);
    let ghost unpadded = buffer@;
    let rem: usize = len % 4;
    let pad: usize = if rem == 0 { 0 } else { 4 - rem };
    let mut k: usize = 0;
    proof {
        assert(unpadded + zeros(0) =~= unpadded);
    }
    while k < pad
        invariant
            k <= pad,
            buffer@ == unpadded + zeros(k as int),
        decreases pad - k,
    {
        buffer.push(0u8);
        proof {
            assert((unpadded + zeros(k as int)).push(0u8) =~= unpadded + zeros(k as int + 1));
        }
        k = k + 1;
    }
    proof {
        assert(pad == pad4(payload_len(c@.payload)));
        assert((((old(buffer)@ + h1s) + h2s) + payload_bytes(c@.payload)) + zeros(pad as int)
            =~= old(buffer)@ + framed_bytes(c@));
    }
}

/// Appends the framed bytes of every attribute of `cs`, in order.
pub(crate) fn emit_children(cs: &Vec<GenlDevlinkAttrs>, buffer: &mut Vec<u8>)
    requires
        encodable_children(models_of(cs@)),
    ensures
        final(buffer)@ == old(buffer)@ + children_bytes(models_of(cs@)),
    decreases cs@, 2int,
{
    let ghost ms = models_of(cs@);
    proof {
        lemma_models_of_index(cs@);
        assert(ms.subrange(0, 0) =~= Seq::<crate::model::AttrValue>::empty());
        assert(old(buffer)@ + children_bytes(ms.subrange(0, 0)) =~= old(buffer)@);
    }
    let mut i: usize = 0;
    while i < cs.len()
        invariant
            i <= cs.len(),
            ms == models_of(cs@),
            ms.len() == cs@.len(),
            forall|j: int| 0 <= j < cs@.len() ==> ms[j] == attr_model(#[trigger] cs@[j]),
            encodable_children(ms),
            buffer@ == old(buffer)@ + children_bytes(ms.subrange(0, i as int)),
        decreases cs@.len() - i,
    {
        proof {
            assert(encodable(ms[i as int].payload) && 4 + payload_len(ms[i as int].payload)
                <= 0xffff);
        }
        emit_framed(&cs[i], buffer);
        proof {
            assert(ms.subrange(0, i as int).push(ms[i as int]) =~= ms.subrange(0, i as int + 1));
            lemma_children_bytes_push(ms.subrange(0, i as int), ms[i as int]);
            assert((old(buffer)@ + children_bytes(ms.subrange(0, i as int))) + framed_bytes(
                ms[i as int],
            ) =~= old(buffer)@ + children_bytes(ms.subrange(0, i as int + 1)));
        }
        i = i + 1;
    }
    proof {
        assert(ms.subrange(0, cs@.len() as int) =~= ms);
    }
}

/// Encodes one attribute's payload into a fresh, exactly sized buffer: the
/// owned-bytes form of `emit_value`.
pub fn encode_attribute(v: &GenlDevlinkAttrs) -> (out: Vec<u8>)
    requires
        encodable(v@.payload),
    ensures
        out@ == payload_bytes(v@.payload),
{
    let mut out: Vec<u8> = Vec::new();
    v.emit_value(&mut out);
    proof {
        assert(Seq::<u8>::empty() + payload_bytes(v@.payload) =~= payload_bytes(v@.payload));
    }
    out
}

} // verus!
