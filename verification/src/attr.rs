//! The attribute value type of the devlink family and its basic queries:
//! the wire type code, the nesting flag and the exact payload length.
use vstd::prelude::*;
use crate::tags::{
    DEVLINK_ATTR_BUS_NAME,
    DEVLINK_ATTR_LOCATION,
    DEVLINK_ATTR_PORT_INDEX,
    DEVLINK_ATTR_PORT_TYPE,
    DEVLINK_ATTR_DESIRED_TYPE,
    DEVLINK_ATTR_NETDEV_IF_INDEX,
    DEVLINK_ATTR_NETDEV_NAME,
    DEVLINK_ATTR_PORT_IBDEV_NAME,
    DEVLINK_ATTR_PORT_SPLIT_COUNT,
    DEVLINK_ATTR_PORT_SPLIT_GROUP,
    DEVLINK_ATTR_SB_INDEX,
    DEVLINK_ATTR_SB_SIZE,
    DEVLINK_ATTR_SB_INGRESS_POOL_COUNT,
    DEVLINK_ATTR_SB_EGRESS_POOL_COUNT,
    DEVLINK_ATTR_SB_INGRESS_TC_COUNT,
    DEVLINK_ATTR_SB_EGRESS_TC_COUNT,
    DEVLINK_ATTR_SB_POOL_INDEX,
    DEVLINK_ATTR_SB_POOL_TYPE,
    DEVLINK_ATTR_SB_POOL_SIZE,
    DEVLINK_ATTR_SB_POOL_THRESHOLD_TYPE,
    DEVLINK_ATTR_SB_THRESHOLD,
    DEVLINK_ATTR_SB_TC_INDEX,
    DEVLINK_ATTR_SB_OCC_CUR,
    DEVLINK_ATTR_SB_OCC_MAX,
    DEVLINK_ATTR_ESWITCH_MODE,
    DEVLINK_ATTR_ESWITCH_INLINE_MODE,
    DEVLINK_ATTR_DPIPE_TABLES,
    DEVLINK_ATTR_DPIPE_TABLE,
    DEVLINK_ATTR_DPIPE_TABLE_NAME,
    DEVLINK_ATTR_DPIPE_TABLE_SIZE,
    DEVLINK_ATTR_DPIPE_TABLE_MATCHES,
    DEVLINK_ATTR_DPIPE_TABLE_ACTIONS,
    DEVLINK_ATTR_DPIPE_TABLE_COUNTERS_ENABLED,
    DEVLINK_ATTR_DPIPE_ENTRIES,
    DEVLINK_ATTR_DPIPE_ENTRY,
    DEVLINK_ATTR_DPIPE_ENTRY_INDEX,
    DEVLINK_ATTR_DPIPE_ENTRY_MATCH_VALUES,
    DEVLINK_ATTR_DPIPE_ENTRY_ACTION_VALUES,
    DEVLINK_ATTR_DPIPE_ENTRY_COUNTER,
    DEVLINK_ATTR_DPIPE_MATCH,
    DEVLINK_ATTR_DPIPE_MATCH_VALUE,
    DEVLINK_ATTR_DPIPE_MATCH_TYPE,
    DEVLINK_ATTR_DPIPE_ACTION,
    DEVLINK_ATTR_DPIPE_ACTION_VALUE,
    DEVLINK_ATTR_DPIPE_ACTION_TYPE,
    DEVLINK_ATTR_DPIPE_VALUE,
    DEVLINK_ATTR_DPIPE_VALUE_MASK,
    DEVLINK_ATTR_DPIPE_VALUE_MAPPING,
    DEVLINK_ATTR_DPIPE_HEADERS,
    DEVLINK_ATTR_DPIPE_HEADER,
    DEVLINK_ATTR_DPIPE_HEADER_NAME,
    DEVLINK_ATTR_DPIPE_HEADER_ID,
    DEVLINK_ATTR_DPIPE_HEADER_FIELDS,
    DEVLINK_ATTR_DPIPE_HEADER_GLOBAL,
    DEVLINK_ATTR_DPIPE_HEADER_INDEX,
    DEVLINK_ATTR_DPIPE_FIELD,
    DEVLINK_ATTR_DPIPE_FIELD_NAME,
    DEVLINK_ATTR_DPIPE_FIELD_ID,
    DEVLINK_ATTR_DPIPE_FIELD_BITWIDTH,
    DEVLINK_ATTR_DPIPE_FIELD_MAPPING_TYPE,
    DEVLINK_ATTR_ESWITCH_ENCAP_MODE,
    DEVLINK_ATTR_RESOURCE_LIST,
    DEVLINK_ATTR_RESOURCE,
    DEVLINK_ATTR_RESOURCE_NAME,
    DEVLINK_ATTR_RESOURCE_ID,
    DEVLINK_ATTR_RESOURCE_SIZE,
    DEVLINK_ATTR_RESOURCE_SIZE_NEW,
    DEVLINK_ATTR_RESOURCE_SIZE_VALID,
    DEVLINK_ATTR_RESOURCE_SIZE_MIN,
    DEVLINK_ATTR_RESOURCE_SIZE_MAX,
    DEVLINK_ATTR_RESOURCE_SIZE_GRAN,
    DEVLINK_ATTR_RESOURCE_UNIT,
    DEVLINK_ATTR_RESOURCE_OCC,
    DEVLINK_ATTR_DPIPE_TABLE_RESOURCE_ID,
    DEVLINK_ATTR_DPIPE_TABLE_RESOURCE_UNITS,
    DEVLINK_ATTR_PORT_FLAVOUR,
    DEVLINK_ATTR_PORT_NUMBER,
    DEVLINK_ATTR_PARAM,
    DEVLINK_ATTR_PARAM_NAME,
    DEVLINK_ATTR_PARAM_GENERIC,
    DEVLINK_ATTR_PARAM_TYPE,
    DEVLINK_ATTR_PARAM_VALUES_LIST,
    DEVLINK_ATTR_PARAM_VALUE,
    DEVLINK_ATTR_PARAM_VALUE_DATA,
    DEVLINK_ATTR_PARAM_VALUE_CMODE,
    DEVLINK_ATTR_REGION_NAME,
    DEVLINK_ATTR_REGION_SIZE,
    DEVLINK_ATTR_REGION_SNAPSHOTS,
    DEVLINK_ATTR_REGION_SNAPSHOT,
    DEVLINK_ATTR_REGION_SNAPSHOT_ID,
    DEVLINK_ATTR_REGION_CHUNKS,
    DEVLINK_ATTR_REGION_CHUNK,
    DEVLINK_ATTR_REGION_CHUNK_DATA,
    DEVLINK_ATTR_REGION_CHUNK_ADDR,
    DEVLINK_ATTR_REGION_CHUNK_LEN,
    DEVLINK_ATTR_INFO_DRIVER_NAME,
    DEVLINK_ATTR_INFO_SERIAL_NUMBER,
    DEVLINK_ATTR_INFO_VERSION_FIXED,
    DEVLINK_ATTR_INFO_VERSION_RUNNING,
    DEVLINK_ATTR_INFO_VERSION_STORED,
    DEVLINK_ATTR_INFO_VERSION_NAME,
    DEVLINK_ATTR_INFO_VERSION_VALUE,
    DEVLINK_ATTR_SB_POOL_CELL_SIZE,
    DEVLINK_ATTR_FMSG,
    DEVLINK_ATTR_FMSG_OBJ_NEST_START,
    DEVLINK_ATTR_FMSG_PAIR_NEST_START,
    DEVLINK_ATTR_FMSG_ARR_NEST_START,
    DEVLINK_ATTR_FMSG_NEST_END,
    DEVLINK_ATTR_FMSG_OBJ_NAME,
    DEVLINK_ATTR_FMSG_OBJ_VALUE_TYPE,
    DEVLINK_ATTR_FMSG_OBJ_VALUE_DATA,
    DEVLINK_ATTR_HEALTH_REPORTER,
    DEVLINK_ATTR_HEALTH_REPORTER_NAME,
    DEVLINK_ATTR_HEALTH_REPORTER_STATE,
    DEVLINK_ATTR_HEALTH_REPORTER_ERR_COUNT,
    DEVLINK_ATTR_HEALTH_REPORTER_RECOVER_COUNT,
    DEVLINK_ATTR_HEALTH_REPORTER_DUMP_TS,
    DEVLINK_ATTR_HEALTH_REPORTER_GRACEFUL_PERIOD,
    DEVLINK_ATTR_HEALTH_REPORTER_AUTO_RECOVER,
    DEVLINK_ATTR_FLASH_UPDATE_FILE_NAME,
    DEVLINK_ATTR_FLASH_UPDATE_COMPONENT,
    DEVLINK_ATTR_FLASH_UPDATE_STATUS_MSG,
    DEVLINK_ATTR_FLASH_UPDATE_STATUS_DONE,
    DEVLINK_ATTR_FLASH_UPDATE_STATUS_TOTAL,
    DEVLINK_ATTR_PORT_PCI_PF_NUMBER,
    DEVLINK_ATTR_PORT_PCI_VF_NUMBER,
    DEVLINK_ATTR_STATS,
    DEVLINK_ATTR_TRAP_NAME,
    DEVLINK_ATTR_TRAP_ACTION,
    DEVLINK_ATTR_TRAP_TYPE,
    DEVLINK_ATTR_TRAP_GENERIC,
    DEVLINK_ATTR_TRAP_METADATA,
    DEVLINK_ATTR_TRAP_GROUP_NAME,
    DEVLINK_ATTR_RELOAD_FAILED,
    DEVLINK_ATTR_HEALTH_REPORTER_DUMP_TS_NS,
    DEVLINK_ATTR_NETNS_FD,
    DEVLINK_ATTR_NETNS_PID,
    DEVLINK_ATTR_NETNS_ID,
    DEVLINK_ATTR_HEALTH_REPORTER_AUTO_DUMP,
    DEVLINK_ATTR_TRAP_POLICER_ID,
    DEVLINK_ATTR_TRAP_POLICER_RATE,
    DEVLINK_ATTR_TRAP_POLICER_BURST,
    DEVLINK_ATTR_PORT_FUNCTION,
    DEVLINK_ATTR_INFO_BOARD_SERIAL_NUMBER,
    DEVLINK_ATTR_PORT_LANES,
    DEVLINK_ATTR_PORT_SPLITTABLE,
    DEVLINK_ATTR_PORT_EXTERNAL,
    DEVLINK_ATTR_PORT_CONTROLLER_NUMBER,
    DEVLINK_ATTR_FLASH_UPDATE_STATUS_TIMEOUT,
    DEVLINK_ATTR_FLASH_UPDATE_OVERWRITE_MASK,
    DEVLINK_ATTR_RELOAD_ACTION,
    DEVLINK_ATTR_RELOAD_ACTIONS_PERFORMED,
    DEVLINK_ATTR_RELOAD_LIMITS,
    DEVLINK_ATTR_DEV_STATS,
    DEVLINK_ATTR_RELOAD_STATS,
    DEVLINK_ATTR_RELOAD_STATS_ENTRY,
    DEVLINK_ATTR_RELOAD_STATS_LIMIT,
    DEVLINK_ATTR_RELOAD_STATS_VALUE,
    DEVLINK_ATTR_REMOTE_RELOAD_STATS,
    DEVLINK_ATTR_RELOAD_ACTION_INFO,
    DEVLINK_ATTR_RELOAD_ACTION_STATS,
    DEVLINK_ATTR_PORT_PCI_SF_NUMBER,
    DEVLINK_ATTR_RATE_TYPE,
    DEVLINK_ATTR_RATE_TX_SHARE,
    DEVLINK_ATTR_RATE_TX_MAX,
    DEVLINK_ATTR_RATE_NODE_NAME,
    DEVLINK_ATTR_RATE_PARENT_NODE_NAME,
    DEVLINK_ATTR_REGION_MAX_SNAPSHOTS,
};
use crate::model::{
    AttrValue, AttrPayload, payload_len, children_len, framed_len, lemma_framed_len_bounds,
    lemma_children_len_push, lemma_payload_len_nonneg, lemma_children_len_nonneg,
};

verus! {

/// One attribute of the devlink family, tagged by kind; the payload is a
/// fixed-width unsigned integer, a boolean flag, text, a raw byte blob, or an
/// ordered list of child attributes.
#[derive(Debug, PartialEq, Eq)]
pub enum GenlDevlinkAttrs {
    BusName(String),
    Location(String),
    PortIndex(u32),
    PortType(u16),
    DesiredType(u16),
    NetdevIndex(u32),
    NetdevName(String),
    PortIbdevName(String),
    PortSplitCount(u32),
    PortSplitGroup(u32),
    SbIndex(u32),
    SbSize(u32),
    SbIngressPoolCount(u16),
    SbEgressPoolCount(u16),
    SbIngressTcCount(u16),
    SbEgressTcCount(u16),
    SbPoolIndex(u16),
    SbPoolType(u8),
    SbPoolSize(u32),
    SbPoolThresholdType(u8),
    SbPoolThreshold(u32),
    SbTcIndex(u16),
    SbOccCur(u32),
    SbOccMax(u32),
    EswitchMode(u16),
    EswitchInlineMode(u8),
    DpipeTables(Vec<GenlDevlinkAttrs>),
    DpipeTable(Vec<GenlDevlinkAttrs>),
    DpipeTableName(String),
    DpipeTableSize(u64),
    DpipeTableMatches(Vec<GenlDevlinkAttrs>),
    DpipeTableActions(Vec<GenlDevlinkAttrs>),
    DpipeTableCountersEnabled(u8),
    DpipeEntries(Vec<GenlDevlinkAttrs>),
    DpipeEntry(Vec<GenlDevlinkAttrs>),
    DpipeEntryIndex(u64),
    DpipeEntryMatchValues(Vec<GenlDevlinkAttrs>),
    DpipeEntryActionValues(Vec<GenlDevlinkAttrs>),
    DpipeEntryCounter(u64),
    DpipeMatch(Vec<GenlDevlinkAttrs>),
    DpipeMatchValue(Vec<GenlDevlinkAttrs>),
    DpipeMatchType(u32),
    DpipeAction(Vec<GenlDevlinkAttrs>),
    DpipeActionValue(Vec<GenlDevlinkAttrs>),
    DpipeActionType(u32),
    DpipeValue(u32),
    DpipeValueMask(u32),
    DpipeValueMapping(u32),
    DpipeHeaders(Vec<GenlDevlinkAttrs>),
    DpipeHader(Vec<GenlDevlinkAttrs>),
    DpipeHeaderName(String),
    DpipeHeaderId(u32),
    DpipeHeaderFields(Vec<GenlDevlinkAttrs>),
    DpipeHeaderGlobal(u8),
    DpipeHeaderIndex(u32),
    DpipeField(Vec<GenlDevlinkAttrs>),
    DpipeFieldName(String),
    DpipeFieldId(u32),
    DpipeFieldBitwidth(u32),
    DpipeFieldMappingType(u32),
    EswitchEncapMode(u8),
    ResourceList(Vec<GenlDevlinkAttrs>),
    Resource(Vec<GenlDevlinkAttrs>),
    ResoureceName(String),
    ResourceId(u64),
    ResourceSize(u64),
    ResourceSizeNew(u64),
    ResourceSizeValid(u8),
    ResourceSizeMin(u64),
    ResourceSizeMax(u64),
    ResourceSizeGran(u64),
    ResourceUnit(u8),
    ResourceOcc(u64),
    DpipeTableResourceId(u64),
    DpipeTableResourceUnit(u64),
    PortFlavour(u16),
    PortNumber(u32),
    Param(Vec<GenlDevlinkAttrs>),
    ParamName(String),
    ParamGeneric(bool),
    ParamType(u8),
    ParamValueList(Vec<GenlDevlinkAttrs>),
    ParamValue(u64),
    ParamValueData(Vec<GenlDevlinkAttrs>),
    ParamValueCmode(u8),
    RegionName(String),
    RegionSize(u64),
    RegionSnapshots(Vec<GenlDevlinkAttrs>),
    RegionSnapshot(Vec<GenlDevlinkAttrs>),
    RegionSnapshotId(u32),
    RegionChunks(Vec<GenlDevlinkAttrs>),
    RegionChunk(Vec<GenlDevlinkAttrs>),
    RegionChunkData(Vec<u8>),
    RegionChunkOffset(u64),
    RegionChunkSize(u64),
    InfoDriverName(String),
    InfoSerialNo(String),
    InfoVersionFixed(Vec<GenlDevlinkAttrs>),
    InfoVersionRunning(Vec<GenlDevlinkAttrs>),
    InfoVersionStored(Vec<GenlDevlinkAttrs>),
    InfoVersionName(String),
    InfoVersionValue(String),
    SbPoolCellSize(u32),
    Fmsg(Vec<GenlDevlinkAttrs>),
    FmsgObjNestStart(bool),
    FmsgPairNestStart(bool),
    FmsgArrNestStart(bool),
    FmsgNestEnd(bool),
    FmsgObjName(String),
    FmsgObjValueType(u8),
    FmsgObjValueData(Vec<GenlDevlinkAttrs>),
    HealthReporter(Vec<GenlDevlinkAttrs>),
    HealthReporterName(String),
    HealthReporterState(u8),
    HealthReporterErrCount(u64),
    HealthReporterRecoverCount(u64),
    HealthReporterDumpTs(u64),
    HealthReporterGracefulPeriod(u64),
    HealthReporterAucoRecover(u8),
    FlashUpdateFileName(String),
    FlashUpdateComponent(String),
    FlashUpdateStatusMsg(String),
    FlashUpdateStatusDone(u64),
    FlashUpdateStatusTotal(u64),
    PortPciPfNumber(u16),
    PortPciVfNumber(u16),
    Stats(Vec<GenlDevlinkAttrs>),
    TrapName(String),
    TrapAction(u8),
    TrapType(u8),
    TrapGeneric(bool),
    TrapMetadata(Vec<GenlDevlinkAttrs>),
    TrapGroupName(String),
    ReloadStatus(u8),
    HealthReporterDumpTsNs(u64),
    NetnsFd(u32),
    NetnsPid(u32),
    NetnsId(u32),
    HealthReporterAutoDump(u8),
    TrapPolicerId(u32),
    TrapPolicerRate(u64),
    TrapPolicerBurst(u64),
    PortFunction(Vec<GenlDevlinkAttrs>),
    InfoBoardSerialNumber(String),
    PortLanes(u32),
    PortSplittable(u8),
    PortExternal(u8),
    PortControllerNo(u32),
    FlashUpdateStatusTimeout(u32),
    FlashUpdateOverWriteMask(u32),
    ReloadAction(u8),
    ReloadActionPerformed(u32),
    ReloadLimits(u32),
    DevStats(Vec<GenlDevlinkAttrs>),
    ReloadStats(Vec<GenlDevlinkAttrs>),
    ReloadStatsEntry(Vec<GenlDevlinkAttrs>),
    ReloadStatsLimit(u8),
    ReloadStatsValue(u32),
    RemoteReloadStats(Vec<GenlDevlinkAttrs>),
    ReloadActionInfo(Vec<GenlDevlinkAttrs>),
    ReloadActionStats(Vec<GenlDevlinkAttrs>),
    PortPciSfNo(u32),
    RateType(u16),
    RateTxShare(u64),
    RateTxMax(u64),
    RateNodeName(String),
    RateParentNodeName(String),
    RegionMaxSnapshots(u32),
}

/// The model of an attribute: its wire type code paired with the shape the
/// table assigns to its kind. This mapping is the variant-to-tag table; it is
/// injective, each variant carrying its own code.
pub open spec fn attr_model(v: GenlDevlinkAttrs) -> AttrValue
    decreases v,
{
    match v {
        GenlDevlinkAttrs::BusName(v) => AttrValue { tag: DEVLINK_ATTR_BUS_NAME, payload: AttrPayload::Text(v@) },
        GenlDevlinkAttrs::Location(v) => AttrValue { tag: DEVLINK_ATTR_LOCATION, payload: AttrPayload::Text(v@) },
        GenlDevlinkAttrs::PortIndex(v) => AttrValue { tag: DEVLINK_ATTR_PORT_INDEX, payload: AttrPayload::U32(v) },
        GenlDevlinkAttrs::PortType(v) => AttrValue { tag: DEVLINK_ATTR_PORT_TYPE, payload: AttrPayload::U16(v) },
        GenlDevlinkAttrs::DesiredType(v) => AttrValue { tag: DEVLINK_ATTR_DESIRED_TYPE, payload: AttrPayload::U16(v) },
        GenlDevlinkAttrs::NetdevIndex(v) => AttrValue { tag: DEVLINK_ATTR_NETDEV_IF_INDEX, payload: AttrPayload::U32(v) },
        GenlDevlinkAttrs::NetdevName(v) => AttrValue { tag: DEVLINK_ATTR_NETDEV_NAME, payload: AttrPayload::Text(v@) },
        GenlDevlinkAttrs::PortIbdevName(v) => AttrValue { tag: DEVLINK_ATTR_PORT_IBDEV_NAME, payload: AttrPayload::Text(v@) },
        GenlDevlinkAttrs::PortSplitCount(v) => AttrValue { tag: DEVLINK_ATTR_PORT_SPLIT_COUNT, payload: AttrPayload::U32(v) },
        GenlDevlinkAttrs::PortSplitGroup(v) => AttrValue { tag: DEVLINK_ATTR_PORT_SPLIT_GROUP, payload: AttrPayload::U32(v) },
        GenlDevlinkAttrs::SbIndex(v) => AttrValue { tag: DEVLINK_ATTR_SB_INDEX, payload: AttrPayload::U32(v) },
        GenlDevlinkAttrs::SbSize(v) => AttrValue { tag: DEVLINK_ATTR_SB_SIZE, payload: AttrPayload::U32(v) },
        GenlDevlinkAttrs::SbIngressPoolCount(v) => AttrValue { tag: DEVLINK_ATTR_SB_INGRESS_POOL_COUNT, payload: AttrPayload::U16(v) },
        GenlDevlinkAttrs::SbEgressPoolCount(v) => AttrValue { tag: DEVLINK_ATTR_SB_EGRESS_POOL_COUNT, payload: AttrPayload::U16(v) },
        GenlDevlinkAttrs::SbIngressTcCount(v) => AttrValue { tag: DEVLINK_ATTR_SB_INGRESS_TC_COUNT, payload: AttrPayload::U16(v) },
        GenlDevlinkAttrs::SbEgressTcCount(v) => AttrValue { tag: DEVLINK_ATTR_SB_EGRESS_TC_COUNT, payload: AttrPayload::U16(v) },
        GenlDevlinkAttrs::SbPoolIndex(v) => AttrValue { tag: DEVLINK_ATTR_SB_POOL_INDEX, payload: AttrPayload::U16(v) },
        GenlDevlinkAttrs::SbPoolType(v) => AttrValue { tag: DEVLINK_ATTR_SB_POOL_TYPE, payload: AttrPayload::U8(v) },
        GenlDevlinkAttrs::SbPoolSize(v) => AttrValue { tag: DEVLINK_ATTR_SB_POOL_SIZE, payload: AttrPayload::U32(v) },
        GenlDevlinkAttrs::SbPoolThresholdType(v) => AttrValue { tag: DEVLINK_ATTR_SB_POOL_THRESHOLD_TYPE, payload: AttrPayload::U8(v) },
        GenlDevlinkAttrs::SbPoolThreshold(v) => AttrValue { tag: DEVLINK_ATTR_SB_THRESHOLD, payload: AttrPayload::U32(v) },
        GenlDevlinkAttrs::SbTcIndex(v) => AttrValue { tag: DEVLINK_ATTR_SB_TC_INDEX, payload: AttrPayload::U16(v) },
        GenlDevlinkAttrs::SbOccCur(v) => AttrValue { tag: DEVLINK_ATTR_SB_OCC_CUR, payload: AttrPayload::U32(v) },
        GenlDevlinkAttrs::SbOccMax(v) => AttrValue { tag: DEVLINK_ATTR_SB_OCC_MAX, payload: AttrPayload::U32(v) },
        GenlDevlinkAttrs::EswitchMode(v) => AttrValue { tag: DEVLINK_ATTR_ESWITCH_MODE, payload: AttrPayload::U16(v) },
        GenlDevlinkAttrs::EswitchInlineMode(v) => AttrValue { tag: DEVLINK_ATTR_ESWITCH_INLINE_MODE, payload: AttrPayload::U8(v) },
        GenlDevlinkAttrs::DpipeTables(v) => AttrValue { tag: DEVLINK_ATTR_DPIPE_TABLES, payload: AttrPayload::Nested(models_of(v@)) },
        GenlDevlinkAttrs::DpipeTable(v) => AttrValue { tag: DEVLINK_ATTR_DPIPE_TABLE, payload: AttrPayload::Nested(models_of(v@)) },
        GenlDevlinkAttrs::DpipeTableName(v) => AttrValue { tag: DEVLINK_ATTR_DPIPE_TABLE_NAME, payload: AttrPayload::Text(v@) },
        GenlDevlinkAttrs::DpipeTableSize(v) => AttrValue { tag: DEVLINK_ATTR_DPIPE_TABLE_SIZE, payload: AttrPayload::U64(v) },
        GenlDevlinkAttrs::DpipeTableMatches(v) => AttrValue { tag: DEVLINK_ATTR_DPIPE_TABLE_MATCHES, payload: AttrPayload::Nested(models_of(v@)) },
        GenlDevlinkAttrs::DpipeTableActions(v) => AttrValue { tag: DEVLINK_ATTR_DPIPE_TABLE_ACTIONS, payload: AttrPayload::Nested(models_of(v@)) },
        GenlDevlinkAttrs::DpipeTableCountersEnabled(v) => AttrValue { tag: DEVLINK_ATTR_DPIPE_TABLE_COUNTERS_ENABLED, payload: AttrPayload::U8(v) },
        GenlDevlinkAttrs::DpipeEntries(v) => AttrValue { tag: DEVLINK_ATTR_DPIPE_ENTRIES, payload: AttrPayload::Nested(models_of(v@)) },
        GenlDevlinkAttrs::DpipeEntry(v) => AttrValue { tag: DEVLINK_ATTR_DPIPE_ENTRY, payload: AttrPayload::Nested(models_of(v@)) },
        GenlDevlinkAttrs::DpipeEntryIndex(v) => AttrValue { tag: DEVLINK_ATTR_DPIPE_ENTRY_INDEX, payload: AttrPayload::U64(v) },
        GenlDevlinkAttrs::DpipeEntryMatchValues(v) => AttrValue { tag: DEVLINK_ATTR_DPIPE_ENTRY_MATCH_VALUES, payload: AttrPayload::Nested(models_of(v@)) },
        GenlDevlinkAttrs::DpipeEntryActionValues(v) => AttrValue { tag: DEVLINK_ATTR_DPIPE_ENTRY_ACTION_VALUES, payload: AttrPayload::Nested(models_of(v@)) },
        GenlDevlinkAttrs::DpipeEntryCounter(v) => AttrValue { tag: DEVLINK_ATTR_DPIPE_ENTRY_COUNTER, payload: AttrPayload::U64(v) },
        GenlDevlinkAttrs::DpipeMatch(v) => AttrValue { tag: DEVLINK_ATTR_DPIPE_MATCH, payload: AttrPayload::Nested(models_of(v@)) },
        GenlDevlinkAttrs::DpipeMatchValue(v) => AttrValue { tag: DEVLINK_ATTR_DPIPE_MATCH_VALUE, payload: AttrPayload::Nested(models_of(v@)) },
        GenlDevlinkAttrs::DpipeMatchType(v) => AttrValue { tag: DEVLINK_ATTR_DPIPE_MATCH_TYPE, payload: AttrPayload::U32(v) },
        GenlDevlinkAttrs::DpipeAction(v) => AttrValue { tag: DEVLINK_ATTR_DPIPE_ACTION, payload: AttrPayload::Nested(models_of(v@)) },
        GenlDevlinkAttrs::DpipeActionValue(v) => AttrValue { tag: DEVLINK_ATTR_DPIPE_ACTION_VALUE, payload: AttrPayload::Nested(models_of(v@)) },
        GenlDevlinkAttrs::DpipeActionType(v) => AttrValue { tag: DEVLINK_ATTR_DPIPE_ACTION_TYPE, payload: AttrPayload::U32(v) },
        GenlDevlinkAttrs::DpipeValue(v) => AttrValue { tag: DEVLINK_ATTR_DPIPE_VALUE, payload: AttrPayload::U32(v) },
        GenlDevlinkAttrs::DpipeValueMask(v) => AttrValue { tag: DEVLINK_ATTR_DPIPE_VALUE_MASK, payload: AttrPayload::U32(v) },
        GenlDevlinkAttrs::DpipeValueMapping(v) => AttrValue { tag: DEVLINK_ATTR_DPIPE_VALUE_MAPPING, payload: AttrPayload::U32(v) },
        GenlDevlinkAttrs::DpipeHeaders(v) => AttrValue { tag: DEVLINK_ATTR_DPIPE_HEADERS, payload: AttrPayload::Nested(models_of(v@)) },
        GenlDevlinkAttrs::DpipeHader(v) => AttrValue { tag: DEVLINK_ATTR_DPIPE_HEADER, payload: AttrPayload::Nested(models_of(v@)) },
        GenlDevlinkAttrs::DpipeHeaderName(v) => AttrValue { tag: DEVLINK_ATTR_DPIPE_HEADER_NAME, payload: AttrPayload::Text(v@) },
        GenlDevlinkAttrs::DpipeHeaderId(v) => AttrValue { tag: DEVLINK_ATTR_DPIPE_HEADER_ID, payload: AttrPayload::U32(v) },
        GenlDevlinkAttrs::DpipeHeaderFields(v) => AttrValue { tag: DEVLINK_ATTR_DPIPE_HEADER_FIELDS, payload: AttrPayload::Nested(models_of(v@)) },
        GenlDevlinkAttrs::DpipeHeaderGlobal(v) => AttrValue { tag: DEVLINK_ATTR_DPIPE_HEADER_GLOBAL, payload: AttrPayload::U8(v) },
        GenlDevlinkAttrs::DpipeHeaderIndex(v) => AttrValue { tag: DEVLINK_ATTR_DPIPE_HEADER_INDEX, payload: AttrPayload::U32(v) },
        GenlDevlinkAttrs::DpipeField(v) => AttrValue { tag: DEVLINK_ATTR_DPIPE_FIELD, payload: AttrPayload::Nested(models_of(v@)) },
        GenlDevlinkAttrs::DpipeFieldName(v) => AttrValue { tag: DEVLINK_ATTR_DPIPE_FIELD_NAME, payload: AttrPayload::Text(v@) },
        GenlDevlinkAttrs::DpipeFieldId(v) => AttrValue { tag: DEVLINK_ATTR_DPIPE_FIELD_ID, payload: AttrPayload::U32(v) },
        GenlDevlinkAttrs::DpipeFieldBitwidth(v) => AttrValue { tag: DEVLINK_ATTR_DPIPE_FIELD_BITWIDTH, payload: AttrPayload::U32(v) },
        GenlDevlinkAttrs::DpipeFieldMappingType(v) => AttrValue { tag: DEVLINK_ATTR_DPIPE_FIELD_MAPPING_TYPE, payload: AttrPayload::U32(v) },
        GenlDevlinkAttrs::EswitchEncapMode(v) => AttrValue { tag: DEVLINK_ATTR_ESWITCH_ENCAP_MODE, payload: AttrPayload::U8(v) },
        GenlDevlinkAttrs::ResourceList(v) => AttrValue { tag: DEVLINK_ATTR_RESOURCE_LIST, payload: AttrPayload::Nested(models_of(v@)) },
        GenlDevlinkAttrs::Resource(v) => AttrValue { tag: DEVLINK_ATTR_RESOURCE, payload: AttrPayload::Nested(models_of(v@)) },
        GenlDevlinkAttrs::ResoureceName(v) => AttrValue { tag: DEVLINK_ATTR_RESOURCE_NAME, payload: AttrPayload::Text(v@) },
        GenlDevlinkAttrs::ResourceId(v) => AttrValue { tag: DEVLINK_ATTR_RESOURCE_ID, payload: AttrPayload::U64(v) },
        GenlDevlinkAttrs::ResourceSize(v) => AttrValue { tag: DEVLINK_ATTR_RESOURCE_SIZE, payload: AttrPayload::U64(v) },
        GenlDevlinkAttrs::ResourceSizeNew(v) => AttrValue { tag: DEVLINK_ATTR_RESOURCE_SIZE_NEW, payload: AttrPayload::U64(v) },
        GenlDevlinkAttrs::ResourceSizeValid(v) => AttrValue { tag: DEVLINK_ATTR_RESOURCE_SIZE_VALID, payload: AttrPayload::U8(v) },
        GenlDevlinkAttrs::ResourceSizeMin(v) => AttrValue { tag: DEVLINK_ATTR_RESOURCE_SIZE_MIN, payload: AttrPayload::U64(v) },
        GenlDevlinkAttrs::ResourceSizeMax(v) => AttrValue { tag: DEVLINK_ATTR_RESOURCE_SIZE_MAX, payload: AttrPayload::U64(v) },
        GenlDevlinkAttrs::ResourceSizeGran(v) => AttrValue { tag: DEVLINK_ATTR_RESOURCE_SIZE_GRAN, payload: AttrPayload::U64(v) },
        GenlDevlinkAttrs::ResourceUnit(v) => AttrValue { tag: DEVLINK_ATTR_RESOURCE_UNIT, payload: AttrPayload::U8(v) },
        GenlDevlinkAttrs::ResourceOcc(v) => AttrValue { tag: DEVLINK_ATTR_RESOURCE_OCC, payload: AttrPayload::U64(v) },
        GenlDevlinkAttrs::DpipeTableResourceId(v) => AttrValue { tag: DEVLINK_ATTR_DPIPE_TABLE_RESOURCE_ID, payload: AttrPayload::U64(v) },
        GenlDevlinkAttrs::DpipeTableResourceUnit(v) => AttrValue { tag: DEVLINK_ATTR_DPIPE_TABLE_RESOURCE_UNITS, payload: AttrPayload::U64(v) },
        GenlDevlinkAttrs::PortFlavour(v) => AttrValue { tag: DEVLINK_ATTR_PORT_FLAVOUR, payload: AttrPayload::U16(v) },
        GenlDevlinkAttrs::PortNumber(v) => AttrValue { tag: DEVLINK_ATTR_PORT_NUMBER, payload: AttrPayload::U32(v) },
        GenlDevlinkAttrs::Param(v) => AttrValue { tag: DEVLINK_ATTR_PARAM, payload: AttrPayload::Nested(models_of(v@)) },
        GenlDevlinkAttrs::ParamName(v) => AttrValue { tag: DEVLINK_ATTR_PARAM_NAME, payload: AttrPayload::Text(v@) },
        GenlDevlinkAttrs::ParamGeneric(v) => AttrValue { tag: DEVLINK_ATTR_PARAM_GENERIC, payload: AttrPayload::Flag(v) },
        GenlDevlinkAttrs::ParamType(v) => AttrValue { tag: DEVLINK_ATTR_PARAM_TYPE, payload: AttrPayload::U8(v) },
        GenlDevlinkAttrs::ParamValueList(v) => AttrValue { tag: DEVLINK_ATTR_PARAM_VALUES_LIST, payload: AttrPayload::Nested(models_of(v@)) },
        GenlDevlinkAttrs::ParamValue(v) => AttrValue { tag: DEVLINK_ATTR_PARAM_VALUE, payload: AttrPayload::U64(v) },
        GenlDevlinkAttrs::ParamValueData(v) => AttrValue { tag: DEVLINK_ATTR_PARAM_VALUE_DATA, payload: AttrPayload::Nested(models_of(v@)) },
        GenlDevlinkAttrs::ParamValueCmode(v) => AttrValue { tag: DEVLINK_ATTR_PARAM_VALUE_CMODE, payload: AttrPayload::U8(v) },
        GenlDevlinkAttrs::RegionName(v) => AttrValue { tag: DEVLINK_ATTR_REGION_NAME, payload: AttrPayload::Text(v@) },
        GenlDevlinkAttrs::RegionSize(v) => AttrValue { tag: DEVLINK_ATTR_REGION_SIZE, payload: AttrPayload::U64(v) },
        GenlDevlinkAttrs::RegionSnapshots(v) => AttrValue { tag: DEVLINK_ATTR_REGION_SNAPSHOTS, payload: AttrPayload::Nested(models_of(v@)) },
        GenlDevlinkAttrs::RegionSnapshot(v) => AttrValue { tag: DEVLINK_ATTR_REGION_SNAPSHOT, payload: AttrPayload::Nested(models_of(v@)) },
        GenlDevlinkAttrs::RegionSnapshotId(v) => AttrValue { tag: DEVLINK_ATTR_REGION_SNAPSHOT_ID, payload: AttrPayload::U32(v) },
        GenlDevlinkAttrs::RegionChunks(v) => AttrValue { tag: DEVLINK_ATTR_REGION_CHUNKS, payload: AttrPayload::Nested(models_of(v@)) },
        GenlDevlinkAttrs::RegionChunk(v) => AttrValue { tag: DEVLINK_ATTR_REGION_CHUNK, payload: AttrPayload::Nested(models_of(v@)) },
        GenlDevlinkAttrs::RegionChunkData(v) => AttrValue { tag: DEVLINK_ATTR_REGION_CHUNK_DATA, payload: AttrPayload::Bytes(v@) },
        GenlDevlinkAttrs::RegionChunkOffset(v) => AttrValue { tag: DEVLINK_ATTR_REGION_CHUNK_ADDR, payload: AttrPayload::U64(v) },
        GenlDevlinkAttrs::RegionChunkSize(v) => AttrValue { tag: DEVLINK_ATTR_REGION_CHUNK_LEN, payload: AttrPayload::U64(v) },
        GenlDevlinkAttrs::InfoDriverName(v) => AttrValue { tag: DEVLINK_ATTR_INFO_DRIVER_NAME, payload: AttrPayload::Text(v@) },
        GenlDevlinkAttrs::InfoSerialNo(v) => AttrValue { tag: DEVLINK_ATTR_INFO_SERIAL_NUMBER, payload: AttrPayload::Text(v@) },
        GenlDevlinkAttrs::InfoVersionFixed(v) => AttrValue { tag: DEVLINK_ATTR_INFO_VERSION_FIXED, payload: AttrPayload::Nested(models_of(v@)) },
        GenlDevlinkAttrs::InfoVersionRunning(v) => AttrValue { tag: DEVLINK_ATTR_INFO_VERSION_RUNNING, payload: AttrPayload::Nested(models_of(v@)) },
        GenlDevlinkAttrs::InfoVersionStored(v) => AttrValue { tag: DEVLINK_ATTR_INFO_VERSION_STORED, payload: AttrPayload::Nested(models_of(v@)) },
        GenlDevlinkAttrs::InfoVersionName(v) => AttrValue { tag: DEVLINK_ATTR_INFO_VERSION_NAME, payload: AttrPayload::Text(v@) },
        GenlDevlinkAttrs::InfoVersionValue(v) => AttrValue { tag: DEVLINK_ATTR_INFO_VERSION_VALUE, payload: AttrPayload::Text(v@) },
        GenlDevlinkAttrs::SbPoolCellSize(v) => AttrValue { tag: DEVLINK_ATTR_SB_POOL_CELL_SIZE, payload: AttrPayload::U32(v) },
        GenlDevlinkAttrs::Fmsg(v) => AttrValue { tag: DEVLINK_ATTR_FMSG, payload: AttrPayload::Nested(models_of(v@)) },
        GenlDevlinkAttrs::FmsgObjNestStart(v) => AttrValue { tag: DEVLINK_ATTR_FMSG_OBJ_NEST_START, payload: AttrPayload::Flag(v) },
        GenlDevlinkAttrs::FmsgPairNestStart(v) => AttrValue { tag: DEVLINK_ATTR_FMSG_PAIR_NEST_START, payload: AttrPayload::Flag(v) },
        GenlDevlinkAttrs::FmsgArrNestStart(v) => AttrValue { tag: DEVLINK_ATTR_FMSG_ARR_NEST_START, payload: AttrPayload::Flag(v) },
        GenlDevlinkAttrs::FmsgNestEnd(v) => AttrValue { tag: DEVLINK_ATTR_FMSG_NEST_END, payload: AttrPayload::Flag(v) },
        GenlDevlinkAttrs::FmsgObjName(v) => AttrValue { tag: DEVLINK_ATTR_FMSG_OBJ_NAME, payload: AttrPayload::Text(v@) },
        GenlDevlinkAttrs::FmsgObjValueType(v) => AttrValue { tag: DEVLINK_ATTR_FMSG_OBJ_VALUE_TYPE, payload: AttrPayload::U8(v) },
        GenlDevlinkAttrs::FmsgObjValueData(v) => AttrValue { tag: DEVLINK_ATTR_FMSG_OBJ_VALUE_DATA, payload: AttrPayload::Nested(models_of(v@)) },
        GenlDevlinkAttrs::HealthReporter(v) => AttrValue { tag: DEVLINK_ATTR_HEALTH_REPORTER, payload: AttrPayload::Nested(models_of(v@)) },
        GenlDevlinkAttrs::HealthReporterName(v) => AttrValue { tag: DEVLINK_ATTR_HEALTH_REPORTER_NAME, payload: AttrPayload::Text(v@) },
        GenlDevlinkAttrs::HealthReporterState(v) => AttrValue { tag: DEVLINK_ATTR_HEALTH_REPORTER_STATE, payload: AttrPayload::U8(v) },
        GenlDevlinkAttrs::HealthReporterErrCount(v) => AttrValue { tag: DEVLINK_ATTR_HEALTH_REPORTER_ERR_COUNT, payload: AttrPayload::U64(v) },
        GenlDevlinkAttrs::HealthReporterRecoverCount(v) => AttrValue { tag: DEVLINK_ATTR_HEALTH_REPORTER_RECOVER_COUNT, payload: AttrPayload::U64(v) },
        GenlDevlinkAttrs::HealthReporterDumpTs(v) => AttrValue { tag: DEVLINK_ATTR_HEALTH_REPORTER_DUMP_TS, payload: AttrPayload::U64(v) },
        GenlDevlinkAttrs::HealthReporterGracefulPeriod(v) => AttrValue { tag: DEVLINK_ATTR_HEALTH_REPORTER_GRACEFUL_PERIOD, payload: AttrPayload::U64(v) },
        GenlDevlinkAttrs::HealthReporterAucoRecover(v) => AttrValue { tag: DEVLINK_ATTR_HEALTH_REPORTER_AUTO_RECOVER, payload: AttrPayload::U8(v) },
        GenlDevlinkAttrs::FlashUpdateFileName(v) => AttrValue { tag: DEVLINK_ATTR_FLASH_UPDATE_FILE_NAME, payload: AttrPayload::Text(v@) },
        GenlDevlinkAttrs::FlashUpdateComponent(v) => AttrValue { tag: DEVLINK_ATTR_FLASH_UPDATE_COMPONENT, payload: AttrPayload::Text(v@) },
        GenlDevlinkAttrs::FlashUpdateStatusMsg(v) => AttrValue { tag: DEVLINK_ATTR_FLASH_UPDATE_STATUS_MSG, payload: AttrPayload::Text(v@) },
        GenlDevlinkAttrs::FlashUpdateStatusDone(v) => AttrValue { tag: DEVLINK_ATTR_FLASH_UPDATE_STATUS_DONE, payload: AttrPayload::U64(v) },
        GenlDevlinkAttrs::FlashUpdateStatusTotal(v) => AttrValue { tag: DEVLINK_ATTR_FLASH_UPDATE_STATUS_TOTAL, payload: AttrPayload::U64(v) },
        GenlDevlinkAttrs::PortPciPfNumber(v) => AttrValue { tag: DEVLINK_ATTR_PORT_PCI_PF_NUMBER, payload: AttrPayload::U16(v) },
        GenlDevlinkAttrs::PortPciVfNumber(v) => AttrValue { tag: DEVLINK_ATTR_PORT_PCI_VF_NUMBER, payload: AttrPayload::U16(v) },
        GenlDevlinkAttrs::Stats(v) => AttrValue { tag: DEVLINK_ATTR_STATS, payload: AttrPayload::Nested(models_of(v@)) },
        GenlDevlinkAttrs::TrapName(v) => AttrValue { tag: DEVLINK_ATTR_TRAP_NAME, payload: AttrPayload::Text(v@) },
        GenlDevlinkAttrs::TrapAction(v) => AttrValue { tag: DEVLINK_ATTR_TRAP_ACTION, payload: AttrPayload::U8(v) },
        GenlDevlinkAttrs::TrapType(v) => AttrValue { tag: DEVLINK_ATTR_TRAP_TYPE, payload: AttrPayload::U8(v) },
        GenlDevlinkAttrs::TrapGeneric(v) => AttrValue { tag: DEVLINK_ATTR_TRAP_GENERIC, payload: AttrPayload::Flag(v) },
        GenlDevlinkAttrs::TrapMetadata(v) => AttrValue { tag: DEVLINK_ATTR_TRAP_METADATA, payload: AttrPayload::Nested(models_of(v@)) },
        GenlDevlinkAttrs::TrapGroupName(v) => AttrValue { tag: DEVLINK_ATTR_TRAP_GROUP_NAME, payload: AttrPayload::Text(v@) },
        GenlDevlinkAttrs::ReloadStatus(v) => AttrValue { tag: DEVLINK_ATTR_RELOAD_FAILED, payload: AttrPayload::U8(v) },
        GenlDevlinkAttrs::HealthReporterDumpTsNs(v) => AttrValue { tag: DEVLINK_ATTR_HEALTH_REPORTER_DUMP_TS_NS, payload: AttrPayload::U64(v) },
        GenlDevlinkAttrs::NetnsFd(v) => AttrValue { tag: DEVLINK_ATTR_NETNS_FD, payload: AttrPayload::U32(v) },
        GenlDevlinkAttrs::NetnsPid(v) => AttrValue { tag: DEVLINK_ATTR_NETNS_PID, payload: AttrPayload::U32(v) },
        GenlDevlinkAttrs::NetnsId(v) => AttrValue { tag: DEVLINK_ATTR_NETNS_ID, payload: AttrPayload::U32(v) },
        GenlDevlinkAttrs::HealthReporterAutoDump(v) => AttrValue { tag: DEVLINK_ATTR_HEALTH_REPORTER_AUTO_DUMP, payload: AttrPayload::U8(v) },
        GenlDevlinkAttrs::TrapPolicerId(v) => AttrValue { tag: DEVLINK_ATTR_TRAP_POLICER_ID, payload: AttrPayload::U32(v) },
        GenlDevlinkAttrs::TrapPolicerRate(v) => AttrValue { tag: DEVLINK_ATTR_TRAP_POLICER_RATE, payload: AttrPayload::U64(v) },
        GenlDevlinkAttrs::TrapPolicerBurst(v) => AttrValue { tag: DEVLINK_ATTR_TRAP_POLICER_BURST, payload: AttrPayload::U64(v) },
        GenlDevlinkAttrs::PortFunction(v) => AttrValue { tag: DEVLINK_ATTR_PORT_FUNCTION, payload: AttrPayload::Nested(models_of(v@)) },
        GenlDevlinkAttrs::InfoBoardSerialNumber(v) => AttrValue { tag: DEVLINK_ATTR_INFO_BOARD_SERIAL_NUMBER, payload: AttrPayload::Text(v@) },
        GenlDevlinkAttrs::PortLanes(v) => AttrValue { tag: DEVLINK_ATTR_PORT_LANES, payload: AttrPayload::U32(v) },
        GenlDevlinkAttrs::PortSplittable(v) => AttrValue { tag: DEVLINK_ATTR_PORT_SPLITTABLE, payload: AttrPayload::U8(v) },
        GenlDevlinkAttrs::PortExternal(v) => AttrValue { tag: DEVLINK_ATTR_PORT_EXTERNAL, payload: AttrPayload::U8(v) },
        GenlDevlinkAttrs::PortControllerNo(v) => AttrValue { tag: DEVLINK_ATTR_PORT_CONTROLLER_NUMBER, payload: AttrPayload::U32(v) },
        GenlDevlinkAttrs::FlashUpdateStatusTimeout(v) => AttrValue { tag: DEVLINK_ATTR_FLASH_UPDATE_STATUS_TIMEOUT, payload: AttrPayload::U32(v) },
        GenlDevlinkAttrs::FlashUpdateOverWriteMask(v) => AttrValue { tag: DEVLINK_ATTR_FLASH_UPDATE_OVERWRITE_MASK, payload: AttrPayload::U32(v) },
        GenlDevlinkAttrs::ReloadAction(v) => AttrValue { tag: DEVLINK_ATTR_RELOAD_ACTION, payload: AttrPayload::U8(v) },
        GenlDevlinkAttrs::ReloadActionPerformed(v) => AttrValue { tag: DEVLINK_ATTR_RELOAD_ACTIONS_PERFORMED, payload: AttrPayload::U32(v) },
        GenlDevlinkAttrs::ReloadLimits(v) => AttrValue { tag: DEVLINK_ATTR_RELOAD_LIMITS, payload: AttrPayload::U32(v) },
        GenlDevlinkAttrs::DevStats(v) => AttrValue { tag: DEVLINK_ATTR_DEV_STATS, payload: AttrPayload::Nested(models_of(v@)) },
        GenlDevlinkAttrs::ReloadStats(v) => AttrValue { tag: DEVLINK_ATTR_RELOAD_STATS, payload: AttrPayload::Nested(models_of(v@)) },
        GenlDevlinkAttrs::ReloadStatsEntry(v) => AttrValue { tag: DEVLINK_ATTR_RELOAD_STATS_ENTRY, payload: AttrPayload::Nested(models_of(v@)) },
        GenlDevlinkAttrs::ReloadStatsLimit(v) => AttrValue { tag: DEVLINK_ATTR_RELOAD_STATS_LIMIT, payload: AttrPayload::U8(v) },
        GenlDevlinkAttrs::ReloadStatsValue(v) => AttrValue { tag: DEVLINK_ATTR_RELOAD_STATS_VALUE, payload: AttrPayload::U32(v) },
        GenlDevlinkAttrs::RemoteReloadStats(v) => AttrValue { tag: DEVLINK_ATTR_REMOTE_RELOAD_STATS, payload: AttrPayload::Nested(models_of(v@)) },
        GenlDevlinkAttrs::ReloadActionInfo(v) => AttrValue { tag: DEVLINK_ATTR_RELOAD_ACTION_INFO, payload: AttrPayload::Nested(models_of(v@)) },
        GenlDevlinkAttrs::ReloadActionStats(v) => AttrValue { tag: DEVLINK_ATTR_RELOAD_ACTION_STATS, payload: AttrPayload::Nested(models_of(v@)) },
        GenlDevlinkAttrs::PortPciSfNo(v) => AttrValue { tag: DEVLINK_ATTR_PORT_PCI_SF_NUMBER, payload: AttrPayload::U32(v) },
        GenlDevlinkAttrs::RateType(v) => AttrValue { tag: DEVLINK_ATTR_RATE_TYPE, payload: AttrPayload::U16(v) },
        GenlDevlinkAttrs::RateTxShare(v) => AttrValue { tag: DEVLINK_ATTR_RATE_TX_SHARE, payload: AttrPayload::U64(v) },
        GenlDevlinkAttrs::RateTxMax(v) => AttrValue { tag: DEVLINK_ATTR_RATE_TX_MAX, payload: AttrPayload::U64(v) },
        GenlDevlinkAttrs::RateNodeName(v) => AttrValue { tag: DEVLINK_ATTR_RATE_NODE_NAME, payload: AttrPayload::Text(v@) },
        GenlDevlinkAttrs::RateParentNodeName(v) => AttrValue { tag: DEVLINK_ATTR_RATE_PARENT_NODE_NAME, payload: AttrPayload::Text(v@) },
        GenlDevlinkAttrs::RegionMaxSnapshots(v) => AttrValue { tag: DEVLINK_ATTR_REGION_MAX_SNAPSHOTS, payload: AttrPayload::U32(v) },
    }
}

/// The models of a list of sibling attributes, in order.
pub open spec fn models_of(cs: Seq<GenlDevlinkAttrs>) -> Seq<AttrValue>
    decreases cs,
{
    if cs.len() == 0 {
        Seq::empty()
    } else {
        seq![attr_model(cs[0])] + models_of(cs.subrange(1, cs.len() as int))
    }
}

impl View for GenlDevlinkAttrs {
    type V = AttrValue;

    open spec fn view(&self) -> AttrValue {
        attr_model(*self)
    }
}

pub proof fn lemma_models_of_index(cs: Seq<GenlDevlinkAttrs>)
    ensures
        models_of(cs).len() == cs.len(),
        forall|i: int| 0 <= i < cs.len() ==> models_of(cs)[i] == attr_model(#[trigger] cs[i]),
    decreases cs,
{
    if cs.len() > 0 {
        let s1 = cs.subrange(1, cs.len() as int);
        lemma_models_of_index(s1);
        assert forall|i: int| 0 <= i < cs.len() implies models_of(cs)[i] == attr_model(
            #[trigger] cs[i],
        ) by {
            if i > 0 {
                assert(models_of(cs)[i] == models_of(s1)[i - 1]);
                assert(s1[i - 1] == cs[i]);
            }
        }
    }
}

/// Appending one attribute to a list appends its model.
pub proof fn lemma_models_of_push(cs: Seq<GenlDevlinkAttrs>, a: GenlDevlinkAttrs)
    ensures
        models_of(cs.push(a)) == models_of(cs) + seq![attr_model(a)],
    decreases cs,
{
    let s = cs.push(a);
    assert(s.len() == cs.len() + 1);
    if cs.len() == 0 {
        assert(s[0] == a);
        assert(s.subrange(1, s.len() as int) =~= Seq::<GenlDevlinkAttrs>::empty());
        assert(models_of(s) == seq![attr_model(s[0])] + models_of(s.subrange(1, s.len() as int)));
        assert(seq![attr_model(a)] + Seq::<AttrValue>::empty() =~= seq![attr_model(a)]);
        assert(Seq::<AttrValue>::empty() + seq![attr_model(a)] =~= seq![attr_model(a)]);
    } else {
        let rest = cs.subrange(1, cs.len() as int);
        assert(s[0] == cs[0]);
        assert(s.subrange(1, s.len() as int) =~= rest.push(a));
        lemma_models_of_push(rest, a);
        assert(models_of(s) == seq![attr_model(s[0])] + models_of(s.subrange(1, s.len() as int)));
        assert(seq![attr_model(cs[0])] + (models_of(rest) + seq![attr_model(a)]) =~= (seq![
            attr_model(cs[0]),
        ] + models_of(rest)) + seq![attr_model(a)]);
    }
}

impl GenlDevlinkAttrs {
    /// The wire type code of this attribute's kind: total, and one-to-one
    /// with the variants.
    pub fn kind(&self) -> (t: u16)
        ensures
            t == self@.tag,
    {
        match self {
            GenlDevlinkAttrs::BusName(_) => DEVLINK_ATTR_BUS_NAME,
            GenlDevlinkAttrs::Location(_) => DEVLINK_ATTR_LOCATION,
            GenlDevlinkAttrs::PortIndex(_) => DEVLINK_ATTR_PORT_INDEX,
            GenlDevlinkAttrs::PortType(_) => DEVLINK_ATTR_PORT_TYPE,
            GenlDevlinkAttrs::DesiredType(_) => DEVLINK_ATTR_DESIRED_TYPE,
            GenlDevlinkAttrs::NetdevIndex(_) => DEVLINK_ATTR_NETDEV_IF_INDEX,
            GenlDevlinkAttrs::NetdevName(_) => DEVLINK_ATTR_NETDEV_NAME,
            GenlDevlinkAttrs::PortIbdevName(_) => DEVLINK_ATTR_PORT_IBDEV_NAME,
            GenlDevlinkAttrs::PortSplitCount(_) => DEVLINK_ATTR_PORT_SPLIT_COUNT,
            GenlDevlinkAttrs::PortSplitGroup(_) => DEVLINK_ATTR_PORT_SPLIT_GROUP,
            GenlDevlinkAttrs::SbIndex(_) => DEVLINK_ATTR_SB_INDEX,
            GenlDevlinkAttrs::SbSize(_) => DEVLINK_ATTR_SB_SIZE,
            GenlDevlinkAttrs::SbIngressPoolCount(_) => DEVLINK_ATTR_SB_INGRESS_POOL_COUNT,
            GenlDevlinkAttrs::SbEgressPoolCount(_) => DEVLINK_ATTR_SB_EGRESS_POOL_COUNT,
            GenlDevlinkAttrs::SbIngressTcCount(_) => DEVLINK_ATTR_SB_INGRESS_TC_COUNT,
            GenlDevlinkAttrs::SbEgressTcCount(_) => DEVLINK_ATTR_SB_EGRESS_TC_COUNT,
            GenlDevlinkAttrs::SbPoolIndex(_) => DEVLINK_ATTR_SB_POOL_INDEX,
            GenlDevlinkAttrs::SbPoolType(_) => DEVLINK_ATTR_SB_POOL_TYPE,
            GenlDevlinkAttrs::SbPoolSize(_) => DEVLINK_ATTR_SB_POOL_SIZE,
            GenlDevlinkAttrs::SbPoolThresholdType(_) => DEVLINK_ATTR_SB_POOL_THRESHOLD_TYPE,
            GenlDevlinkAttrs::SbPoolThreshold(_) => DEVLINK_ATTR_SB_THRESHOLD,
            GenlDevlinkAttrs::SbTcIndex(_) => DEVLINK_ATTR_SB_TC_INDEX,
            GenlDevlinkAttrs::SbOccCur(_) => DEVLINK_ATTR_SB_OCC_CUR,
            GenlDevlinkAttrs::SbOccMax(_) => DEVLINK_ATTR_SB_OCC_MAX,
            GenlDevlinkAttrs::EswitchMode(_) => DEVLINK_ATTR_ESWITCH_MODE,
            GenlDevlinkAttrs::EswitchInlineMode(_) => DEVLINK_ATTR_ESWITCH_INLINE_MODE,
            GenlDevlinkAttrs::DpipeTables(_) => DEVLINK_ATTR_DPIPE_TABLES,
            GenlDevlinkAttrs::DpipeTable(_) => DEVLINK_ATTR_DPIPE_TABLE,
            GenlDevlinkAttrs::DpipeTableName(_) => DEVLINK_ATTR_DPIPE_TABLE_NAME,
            GenlDevlinkAttrs::DpipeTableSize(_) => DEVLINK_ATTR_DPIPE_TABLE_SIZE,
            GenlDevlinkAttrs::DpipeTableMatches(_) => DEVLINK_ATTR_DPIPE_TABLE_MATCHES,
            GenlDevlinkAttrs::DpipeTableActions(_) => DEVLINK_ATTR_DPIPE_TABLE_ACTIONS,
            GenlDevlinkAttrs::DpipeTableCountersEnabled(_) => DEVLINK_ATTR_DPIPE_TABLE_COUNTERS_ENABLED,
            GenlDevlinkAttrs::DpipeEntries(_) => DEVLINK_ATTR_DPIPE_ENTRIES,
            GenlDevlinkAttrs::DpipeEntry(_) => DEVLINK_ATTR_DPIPE_ENTRY,
            GenlDevlinkAttrs::DpipeEntryIndex(_) => DEVLINK_ATTR_DPIPE_ENTRY_INDEX,
            GenlDevlinkAttrs::DpipeEntryMatchValues(_) => DEVLINK_ATTR_DPIPE_ENTRY_MATCH_VALUES,
            GenlDevlinkAttrs::DpipeEntryActionValues(_) => DEVLINK_ATTR_DPIPE_ENTRY_ACTION_VALUES,
            GenlDevlinkAttrs::DpipeEntryCounter(_) => DEVLINK_ATTR_DPIPE_ENTRY_COUNTER,
            GenlDevlinkAttrs::DpipeMatch(_) => DEVLINK_ATTR_DPIPE_MATCH,
            GenlDevlinkAttrs::DpipeMatchValue(_) => DEVLINK_ATTR_DPIPE_MATCH_VALUE,
            GenlDevlinkAttrs::DpipeMatchType(_) => DEVLINK_ATTR_DPIPE_MATCH_TYPE,
            GenlDevlinkAttrs::DpipeAction(_) => DEVLINK_ATTR_DPIPE_ACTION,
            GenlDevlinkAttrs::DpipeActionValue(_) => DEVLINK_ATTR_DPIPE_ACTION_VALUE,
            GenlDevlinkAttrs::DpipeActionType(_) => DEVLINK_ATTR_DPIPE_ACTION_TYPE,
            GenlDevlinkAttrs::DpipeValue(_) => DEVLINK_ATTR_DPIPE_VALUE,
            GenlDevlinkAttrs::DpipeValueMask(_) => DEVLINK_ATTR_DPIPE_VALUE_MASK,
            GenlDevlinkAttrs::DpipeValueMapping(_) => DEVLINK_ATTR_DPIPE_VALUE_MAPPING,
            GenlDevlinkAttrs::DpipeHeaders(_) => DEVLINK_ATTR_DPIPE_HEADERS,
            GenlDevlinkAttrs::DpipeHader(_) => DEVLINK_ATTR_DPIPE_HEADER,
            GenlDevlinkAttrs::DpipeHeaderName(_) => DEVLINK_ATTR_DPIPE_HEADER_NAME,
            GenlDevlinkAttrs::DpipeHeaderId(_) => DEVLINK_ATTR_DPIPE_HEADER_ID,
            GenlDevlinkAttrs::DpipeHeaderFields(_) => DEVLINK_ATTR_DPIPE_HEADER_FIELDS,
            GenlDevlinkAttrs::DpipeHeaderGlobal(_) => DEVLINK_ATTR_DPIPE_HEADER_GLOBAL,
            GenlDevlinkAttrs::DpipeHeaderIndex(_) => DEVLINK_ATTR_DPIPE_HEADER_INDEX,
            GenlDevlinkAttrs::DpipeField(_) => DEVLINK_ATTR_DPIPE_FIELD,
            GenlDevlinkAttrs::DpipeFieldName(_) => DEVLINK_ATTR_DPIPE_FIELD_NAME,
            GenlDevlinkAttrs::DpipeFieldId(_) => DEVLINK_ATTR_DPIPE_FIELD_ID,
            GenlDevlinkAttrs::DpipeFieldBitwidth(_) => DEVLINK_ATTR_DPIPE_FIELD_BITWIDTH,
            GenlDevlinkAttrs::DpipeFieldMappingType(_) => DEVLINK_ATTR_DPIPE_FIELD_MAPPING_TYPE,
            GenlDevlinkAttrs::EswitchEncapMode(_) => DEVLINK_ATTR_ESWITCH_ENCAP_MODE,
            GenlDevlinkAttrs::ResourceList(_) => DEVLINK_ATTR_RESOURCE_LIST,
            GenlDevlinkAttrs::Resource(_) => DEVLINK_ATTR_RESOURCE,
            GenlDevlinkAttrs::ResoureceName(_) => DEVLINK_ATTR_RESOURCE_NAME,
            GenlDevlinkAttrs::ResourceId(_) => DEVLINK_ATTR_RESOURCE_ID,
            GenlDevlinkAttrs::ResourceSize(_) => DEVLINK_ATTR_RESOURCE_SIZE,
            GenlDevlinkAttrs::ResourceSizeNew(_) => DEVLINK_ATTR_RESOURCE_SIZE_NEW,
            GenlDevlinkAttrs::ResourceSizeValid(_) => DEVLINK_ATTR_RESOURCE_SIZE_VALID,
            GenlDevlinkAttrs::ResourceSizeMin(_) => DEVLINK_ATTR_RESOURCE_SIZE_MIN,
            GenlDevlinkAttrs::ResourceSizeMax(_) => DEVLINK_ATTR_RESOURCE_SIZE_MAX,
            GenlDevlinkAttrs::ResourceSizeGran(_) => DEVLINK_ATTR_RESOURCE_SIZE_GRAN,
            GenlDevlinkAttrs::ResourceUnit(_) => DEVLINK_ATTR_RESOURCE_UNIT,
            GenlDevlinkAttrs::ResourceOcc(_) => DEVLINK_ATTR_RESOURCE_OCC,
            GenlDevlinkAttrs::DpipeTableResourceId(_) => DEVLINK_ATTR_DPIPE_TABLE_RESOURCE_ID,
            GenlDevlinkAttrs::DpipeTableResourceUnit(_) => DEVLINK_ATTR_DPIPE_TABLE_RESOURCE_UNITS,
            GenlDevlinkAttrs::PortFlavour(_) => DEVLINK_ATTR_PORT_FLAVOUR,
            GenlDevlinkAttrs::PortNumber(_) => DEVLINK_ATTR_PORT_NUMBER,
            GenlDevlinkAttrs::Param(_) => DEVLINK_ATTR_PARAM,
            GenlDevlinkAttrs::ParamName(_) => DEVLINK_ATTR_PARAM_NAME,
            GenlDevlinkAttrs::ParamGeneric(_) => DEVLINK_ATTR_PARAM_GENERIC,
            GenlDevlinkAttrs::ParamType(_) => DEVLINK_ATTR_PARAM_TYPE,
            GenlDevlinkAttrs::ParamValueList(_) => DEVLINK_ATTR_PARAM_VALUES_LIST,
            GenlDevlinkAttrs::ParamValue(_) => DEVLINK_ATTR_PARAM_VALUE,
            GenlDevlinkAttrs::ParamValueData(_) => DEVLINK_ATTR_PARAM_VALUE_DATA,
            GenlDevlinkAttrs::ParamValueCmode(_) => DEVLINK_ATTR_PARAM_VALUE_CMODE,
            GenlDevlinkAttrs::RegionName(_) => DEVLINK_ATTR_REGION_NAME,
            GenlDevlinkAttrs::RegionSize(_) => DEVLINK_ATTR_REGION_SIZE,
            GenlDevlinkAttrs::RegionSnapshots(_) => DEVLINK_ATTR_REGION_SNAPSHOTS,
            GenlDevlinkAttrs::RegionSnapshot(_) => DEVLINK_ATTR_REGION_SNAPSHOT,
            GenlDevlinkAttrs::RegionSnapshotId(_) => DEVLINK_ATTR_REGION_SNAPSHOT_ID,
            GenlDevlinkAttrs::RegionChunks(_) => DEVLINK_ATTR_REGION_CHUNKS,
            GenlDevlinkAttrs::RegionChunk(_) => DEVLINK_ATTR_REGION_CHUNK,
            GenlDevlinkAttrs::RegionChunkData(_) => DEVLINK_ATTR_REGION_CHUNK_DATA,
            GenlDevlinkAttrs::RegionChunkOffset(_) => DEVLINK_ATTR_REGION_CHUNK_ADDR,
            GenlDevlinkAttrs::RegionChunkSize(_) => DEVLINK_ATTR_REGION_CHUNK_LEN,
            GenlDevlinkAttrs::InfoDriverName(_) => DEVLINK_ATTR_INFO_DRIVER_NAME,
            GenlDevlinkAttrs::InfoSerialNo(_) => DEVLINK_ATTR_INFO_SERIAL_NUMBER,
            GenlDevlinkAttrs::InfoVersionFixed(_) => DEVLINK_ATTR_INFO_VERSION_FIXED,
            GenlDevlinkAttrs::InfoVersionRunning(_) => DEVLINK_ATTR_INFO_VERSION_RUNNING,
            GenlDevlinkAttrs::InfoVersionStored(_) => DEVLINK_ATTR_INFO_VERSION_STORED,
            GenlDevlinkAttrs::InfoVersionName(_) => DEVLINK_ATTR_INFO_VERSION_NAME,
            GenlDevlinkAttrs::InfoVersionValue(_) => DEVLINK_ATTR_INFO_VERSION_VALUE,
            GenlDevlinkAttrs::SbPoolCellSize(_) => DEVLINK_ATTR_SB_POOL_CELL_SIZE,
            GenlDevlinkAttrs::Fmsg(_) => DEVLINK_ATTR_FMSG,
            GenlDevlinkAttrs::FmsgObjNestStart(_) => DEVLINK_ATTR_FMSG_OBJ_NEST_START,
            GenlDevlinkAttrs::FmsgPairNestStart(_) => DEVLINK_ATTR_FMSG_PAIR_NEST_START,
            GenlDevlinkAttrs::FmsgArrNestStart(_) => DEVLINK_ATTR_FMSG_ARR_NEST_START,
            GenlDevlinkAttrs::FmsgNestEnd(_) => DEVLINK_ATTR_FMSG_NEST_END,
            GenlDevlinkAttrs::FmsgObjName(_) => DEVLINK_ATTR_FMSG_OBJ_NAME,
            GenlDevlinkAttrs::FmsgObjValueType(_) => DEVLINK_ATTR_FMSG_OBJ_VALUE_TYPE,
            GenlDevlinkAttrs::FmsgObjValueData(_) => DEVLINK_ATTR_FMSG_OBJ_VALUE_DATA,
            GenlDevlinkAttrs::HealthReporter(_) => DEVLINK_ATTR_HEALTH_REPORTER,
            GenlDevlinkAttrs::HealthReporterName(_) => DEVLINK_ATTR_HEALTH_REPORTER_NAME,
            GenlDevlinkAttrs::HealthReporterState(_) => DEVLINK_ATTR_HEALTH_REPORTER_STATE,
            GenlDevlinkAttrs::HealthReporterErrCount(_) => DEVLINK_ATTR_HEALTH_REPORTER_ERR_COUNT,
            GenlDevlinkAttrs::HealthReporterRecoverCount(_) => DEVLINK_ATTR_HEALTH_REPORTER_RECOVER_COUNT,
            GenlDevlinkAttrs::HealthReporterDumpTs(_) => DEVLINK_ATTR_HEALTH_REPORTER_DUMP_TS,
            GenlDevlinkAttrs::HealthReporterGracefulPeriod(_) => DEVLINK_ATTR_HEALTH_REPORTER_GRACEFUL_PERIOD,
            GenlDevlinkAttrs::HealthReporterAucoRecover(_) => DEVLINK_ATTR_HEALTH_REPORTER_AUTO_RECOVER,
            GenlDevlinkAttrs::FlashUpdateFileName(_) => DEVLINK_ATTR_FLASH_UPDATE_FILE_NAME,
            GenlDevlinkAttrs::FlashUpdateComponent(_) => DEVLINK_ATTR_FLASH_UPDATE_COMPONENT,
            GenlDevlinkAttrs::FlashUpdateStatusMsg(_) => DEVLINK_ATTR_FLASH_UPDATE_STATUS_MSG,
            GenlDevlinkAttrs::FlashUpdateStatusDone(_) => DEVLINK_ATTR_FLASH_UPDATE_STATUS_DONE,
            GenlDevlinkAttrs::FlashUpdateStatusTotal(_) => DEVLINK_ATTR_FLASH_UPDATE_STATUS_TOTAL,
            GenlDevlinkAttrs::PortPciPfNumber(_) => DEVLINK_ATTR_PORT_PCI_PF_NUMBER,
            GenlDevlinkAttrs::PortPciVfNumber(_) => DEVLINK_ATTR_PORT_PCI_VF_NUMBER,
            GenlDevlinkAttrs::Stats(_) => DEVLINK_ATTR_STATS,
            GenlDevlinkAttrs::TrapName(_) => DEVLINK_ATTR_TRAP_NAME,
            GenlDevlinkAttrs::TrapAction(_) => DEVLINK_ATTR_TRAP_ACTION,
            GenlDevlinkAttrs::TrapType(_) => DEVLINK_ATTR_TRAP_TYPE,
            GenlDevlinkAttrs::TrapGeneric(_) => DEVLINK_ATTR_TRAP_GENERIC,
            GenlDevlinkAttrs::TrapMetadata(_) => DEVLINK_ATTR_TRAP_METADATA,
            GenlDevlinkAttrs::TrapGroupName(_) => DEVLINK_ATTR_TRAP_GROUP_NAME,
            GenlDevlinkAttrs::ReloadStatus(_) => DEVLINK_ATTR_RELOAD_FAILED,
            GenlDevlinkAttrs::HealthReporterDumpTsNs(_) => DEVLINK_ATTR_HEALTH_REPORTER_DUMP_TS_NS,
            GenlDevlinkAttrs::NetnsFd(_) => DEVLINK_ATTR_NETNS_FD,
            GenlDevlinkAttrs::NetnsPid(_) => DEVLINK_ATTR_NETNS_PID,
            GenlDevlinkAttrs::NetnsId(_) => DEVLINK_ATTR_NETNS_ID,
            GenlDevlinkAttrs::HealthReporterAutoDump(_) => DEVLINK_ATTR_HEALTH_REPORTER_AUTO_DUMP,
            GenlDevlinkAttrs::TrapPolicerId(_) => DEVLINK_ATTR_TRAP_POLICER_ID,
            GenlDevlinkAttrs::TrapPolicerRate(_) => DEVLINK_ATTR_TRAP_POLICER_RATE,
            GenlDevlinkAttrs::TrapPolicerBurst(_) => DEVLINK_ATTR_TRAP_POLICER_BURST,
            GenlDevlinkAttrs::PortFunction(_) => DEVLINK_ATTR_PORT_FUNCTION,
            GenlDevlinkAttrs::InfoBoardSerialNumber(_) => DEVLINK_ATTR_INFO_BOARD_SERIAL_NUMBER,
            GenlDevlinkAttrs::PortLanes(_) => DEVLINK_ATTR_PORT_LANES,
            GenlDevlinkAttrs::PortSplittable(_) => DEVLINK_ATTR_PORT_SPLITTABLE,
            GenlDevlinkAttrs::PortExternal(_) => DEVLINK_ATTR_PORT_EXTERNAL,
            GenlDevlinkAttrs::PortControllerNo(_) => DEVLINK_ATTR_PORT_CONTROLLER_NUMBER,
            GenlDevlinkAttrs::FlashUpdateStatusTimeout(_) => DEVLINK_ATTR_FLASH_UPDATE_STATUS_TIMEOUT,
            GenlDevlinkAttrs::FlashUpdateOverWriteMask(_) => DEVLINK_ATTR_FLASH_UPDATE_OVERWRITE_MASK,
            GenlDevlinkAttrs::ReloadAction(_) => DEVLINK_ATTR_RELOAD_ACTION,
            GenlDevlinkAttrs::ReloadActionPerformed(_) => DEVLINK_ATTR_RELOAD_ACTIONS_PERFORMED,
            GenlDevlinkAttrs::ReloadLimits(_) => DEVLINK_ATTR_RELOAD_LIMITS,
            GenlDevlinkAttrs::DevStats(_) => DEVLINK_ATTR_DEV_STATS,
            GenlDevlinkAttrs::ReloadStats(_) => DEVLINK_ATTR_RELOAD_STATS,
            GenlDevlinkAttrs::ReloadStatsEntry(_) => DEVLINK_ATTR_RELOAD_STATS_ENTRY,
            GenlDevlinkAttrs::ReloadStatsLimit(_) => DEVLINK_ATTR_RELOAD_STATS_LIMIT,
            GenlDevlinkAttrs::ReloadStatsValue(_) => DEVLINK_ATTR_RELOAD_STATS_VALUE,
            GenlDevlinkAttrs::RemoteReloadStats(_) => DEVLINK_ATTR_REMOTE_RELOAD_STATS,
            GenlDevlinkAttrs::ReloadActionInfo(_) => DEVLINK_ATTR_RELOAD_ACTION_INFO,
            GenlDevlinkAttrs::ReloadActionStats(_) => DEVLINK_ATTR_RELOAD_ACTION_STATS,
            GenlDevlinkAttrs::PortPciSfNo(_) => DEVLINK_ATTR_PORT_PCI_SF_NUMBER,
            GenlDevlinkAttrs::RateType(_) => DEVLINK_ATTR_RATE_TYPE,
            GenlDevlinkAttrs::RateTxShare(_) => DEVLINK_ATTR_RATE_TX_SHARE,
            GenlDevlinkAttrs::RateTxMax(_) => DEVLINK_ATTR_RATE_TX_MAX,
            GenlDevlinkAttrs::RateNodeName(_) => DEVLINK_ATTR_RATE_NODE_NAME,
            GenlDevlinkAttrs::RateParentNodeName(_) => DEVLINK_ATTR_RATE_PARENT_NODE_NAME,
            GenlDevlinkAttrs::RegionMaxSnapshots(_) => DEVLINK_ATTR_REGION_MAX_SNAPSHOTS,
        }
    }

    /// True exactly for the nested variants, whose payload is a child list;
    /// the framing layer recurses on this flag instead of treating the
    /// payload as opaque bytes.
    pub fn is_nested(&self) -> (b: bool)
        ensures
            b == (self@.payload is Nested),
    {
        match self {
            GenlDevlinkAttrs::DpipeTables(_) | GenlDevlinkAttrs::DpipeTable(_)
            | GenlDevlinkAttrs::DpipeTableMatches(_) | GenlDevlinkAttrs::DpipeTableActions(_)
            | GenlDevlinkAttrs::DpipeEntries(_) | GenlDevlinkAttrs::DpipeEntry(_)
            | GenlDevlinkAttrs::DpipeEntryMatchValues(_)
            | GenlDevlinkAttrs::DpipeEntryActionValues(_) | GenlDevlinkAttrs::DpipeMatch(_)
            | GenlDevlinkAttrs::DpipeMatchValue(_) | GenlDevlinkAttrs::DpipeAction(_)
            | GenlDevlinkAttrs::DpipeActionValue(_) | GenlDevlinkAttrs::DpipeHeaders(_)
            | GenlDevlinkAttrs::DpipeHader(_) | GenlDevlinkAttrs::DpipeHeaderFields(_)
            | GenlDevlinkAttrs::DpipeField(_) | GenlDevlinkAttrs::ResourceList(_)
            | GenlDevlinkAttrs::Resource(_) | GenlDevlinkAttrs::Param(_)
            | GenlDevlinkAttrs::ParamValueList(_) | GenlDevlinkAttrs::ParamValueData(_)
            | GenlDevlinkAttrs::RegionSnapshots(_) | GenlDevlinkAttrs::RegionSnapshot(_)
            | GenlDevlinkAttrs::RegionChunks(_) | GenlDevlinkAttrs::RegionChunk(_)
            | GenlDevlinkAttrs::InfoVersionFixed(_) | GenlDevlinkAttrs::InfoVersionRunning(_)
            | GenlDevlinkAttrs::InfoVersionStored(_) | GenlDevlinkAttrs::Fmsg(_)
            | GenlDevlinkAttrs::FmsgObjValueData(_) | GenlDevlinkAttrs::HealthReporter(_)
            | GenlDevlinkAttrs::Stats(_) | GenlDevlinkAttrs::TrapMetadata(_)
            | GenlDevlinkAttrs::PortFunction(_) | GenlDevlinkAttrs::DevStats(_)
            | GenlDevlinkAttrs::ReloadStats(_) | GenlDevlinkAttrs::ReloadStatsEntry(_)
            | GenlDevlinkAttrs::RemoteReloadStats(_) | GenlDevlinkAttrs::ReloadActionInfo(_)
            | GenlDevlinkAttrs::ReloadActionStats(_) => true,
            _ => false,
        }
    }

    /// The exact number of payload bytes that emitting this value writes:
    /// the scalar's width, one byte for a flag, the text's byte length plus
    /// one for the terminator, the blob's length, or the sum of the
    /// children's fully framed lengths.
    pub fn value_len(&self) -> (n: usize)
        requires
            payload_len(self@.payload) <= usize::MAX,
        ensures
            n as int == payload_len(self@.payload),
        decreases *self, 0int,
    {
        match self {
            GenlDevlinkAttrs::SbPoolType(_) | GenlDevlinkAttrs::SbPoolThresholdType(_)
            | GenlDevlinkAttrs::EswitchInlineMode(_)
            | GenlDevlinkAttrs::DpipeTableCountersEnabled(_)
            | GenlDevlinkAttrs::DpipeHeaderGlobal(_) | GenlDevlinkAttrs::EswitchEncapMode(_)
            | GenlDevlinkAttrs::ResourceSizeValid(_) | GenlDevlinkAttrs::ResourceUnit(_)
            | GenlDevlinkAttrs::ParamType(_) | GenlDevlinkAttrs::ParamValueCmode(_)
            | GenlDevlinkAttrs::FmsgObjValueType(_) | GenlDevlinkAttrs::HealthReporterState(_)
            | GenlDevlinkAttrs::HealthReporterAucoRecover(_) | GenlDevlinkAttrs::TrapAction(_)
            | GenlDevlinkAttrs::TrapType(_) | GenlDevlinkAttrs::ReloadStatus(_)
            | GenlDevlinkAttrs::HealthReporterAutoDump(_) | GenlDevlinkAttrs::PortSplittable(_)
            | GenlDevlinkAttrs::PortExternal(_) | GenlDevlinkAttrs::ReloadAction(_)
            | GenlDevlinkAttrs::ReloadStatsLimit(_) => 1,
            GenlDevlinkAttrs::PortType(_) | GenlDevlinkAttrs::DesiredType(_)
            | GenlDevlinkAttrs::SbIngressPoolCount(_) | GenlDevlinkAttrs::SbEgressPoolCount(_)
            | GenlDevlinkAttrs::SbIngressTcCount(_) | GenlDevlinkAttrs::SbEgressTcCount(_)
            | GenlDevlinkAttrs::SbPoolIndex(_) | GenlDevlinkAttrs::SbTcIndex(_)
            | GenlDevlinkAttrs::EswitchMode(_) | GenlDevlinkAttrs::PortFlavour(_)
            | GenlDevlinkAttrs::PortPciPfNumber(_) | GenlDevlinkAttrs::PortPciVfNumber(_)
            | GenlDevlinkAttrs::RateType(_) => 2,
            GenlDevlinkAttrs::PortIndex(_) | GenlDevlinkAttrs::NetdevIndex(_)
            | GenlDevlinkAttrs::PortSplitCount(_) | GenlDevlinkAttrs::PortSplitGroup(_)
            | GenlDevlinkAttrs::SbIndex(_) | GenlDevlinkAttrs::SbSize(_)
            | GenlDevlinkAttrs::SbPoolSize(_) | GenlDevlinkAttrs::SbPoolThreshold(_)
            | GenlDevlinkAttrs::SbOccCur(_) | GenlDevlinkAttrs::SbOccMax(_)
            | GenlDevlinkAttrs::DpipeMatchType(_) | GenlDevlinkAttrs::DpipeActionType(_)
            | GenlDevlinkAttrs::DpipeValue(_) | GenlDevlinkAttrs::DpipeValueMask(_)
            | GenlDevlinkAttrs::DpipeValueMapping(_) | GenlDevlinkAttrs::DpipeHeaderId(_)
            | GenlDevlinkAttrs::DpipeHeaderIndex(_) | GenlDevlinkAttrs::DpipeFieldId(_)
            | GenlDevlinkAttrs::DpipeFieldBitwidth(_)
            | GenlDevlinkAttrs::DpipeFieldMappingType(_) | GenlDevlinkAttrs::PortNumber(_)
            | GenlDevlinkAttrs::RegionSnapshotId(_) | GenlDevlinkAttrs::SbPoolCellSize(_)
            | GenlDevlinkAttrs::NetnsFd(_) | GenlDevlinkAttrs::NetnsPid(_)
            | GenlDevlinkAttrs::NetnsId(_) | GenlDevlinkAttrs::TrapPolicerId(_)
            | GenlDevlinkAttrs::PortLanes(_) | GenlDevlinkAttrs::PortControllerNo(_)
            | GenlDevlinkAttrs::FlashUpdateStatusTimeout(_)
            | GenlDevlinkAttrs::FlashUpdateOverWriteMask(_)
            | GenlDevlinkAttrs::ReloadActionPerformed(_) | GenlDevlinkAttrs::ReloadLimits(_)
            | GenlDevlinkAttrs::ReloadStatsValue(_) | GenlDevlinkAttrs::PortPciSfNo(_)
            | GenlDevlinkAttrs::RegionMaxSnapshots(_) => 4,
            GenlDevlinkAttrs::DpipeTableSize(_) | GenlDevlinkAttrs::DpipeEntryIndex(_)
            | GenlDevlinkAttrs::DpipeEntryCounter(_) | GenlDevlinkAttrs::ResourceId(_)
            | GenlDevlinkAttrs::ResourceSize(_) | GenlDevlinkAttrs::ResourceSizeNew(_)
            | GenlDevlinkAttrs::ResourceSizeMin(_) | GenlDevlinkAttrs::ResourceSizeMax(_)
            | GenlDevlinkAttrs::ResourceSizeGran(_) | GenlDevlinkAttrs::ResourceOcc(_)
            | GenlDevlinkAttrs::DpipeTableResourceId(_)
            | GenlDevlinkAttrs::DpipeTableResourceUnit(_) | GenlDevlinkAttrs::ParamValue(_)
            | GenlDevlinkAttrs::RegionSize(_) | GenlDevlinkAttrs::RegionChunkOffset(_)
            | GenlDevlinkAttrs::RegionChunkSize(_) | GenlDevlinkAttrs::HealthReporterErrCount(_)
            | GenlDevlinkAttrs::HealthReporterRecoverCount(_)
            | GenlDevlinkAttrs::HealthReporterDumpTs(_)
            | GenlDevlinkAttrs::HealthReporterGracefulPeriod(_)
            | GenlDevlinkAttrs::FlashUpdateStatusDone(_)
            | GenlDevlinkAttrs::FlashUpdateStatusTotal(_)
            | GenlDevlinkAttrs::HealthReporterDumpTsNs(_) | GenlDevlinkAttrs::TrapPolicerRate(_)
            | GenlDevlinkAttrs::TrapPolicerBurst(_) | GenlDevlinkAttrs::RateTxShare(_)
            | GenlDevlinkAttrs::RateTxMax(_) => 8,
            GenlDevlinkAttrs::ParamGeneric(_) | GenlDevlinkAttrs::FmsgObjNestStart(_)
            | GenlDevlinkAttrs::FmsgPairNestStart(_) | GenlDevlinkAttrs::FmsgArrNestStart(_)
            | GenlDevlinkAttrs::FmsgNestEnd(_) | GenlDevlinkAttrs::TrapGeneric(_) => 1,
            GenlDevlinkAttrs::BusName(v) | GenlDevlinkAttrs::Location(v)
            | GenlDevlinkAttrs::NetdevName(v) | GenlDevlinkAttrs::PortIbdevName(v)
            | GenlDevlinkAttrs::DpipeTableName(v) | GenlDevlinkAttrs::DpipeHeaderName(v)
            | GenlDevlinkAttrs::DpipeFieldName(v) | GenlDevlinkAttrs::ResoureceName(v)
            | GenlDevlinkAttrs::ParamName(v) | GenlDevlinkAttrs::RegionName(v)
            | GenlDevlinkAttrs::InfoDriverName(v) | GenlDevlinkAttrs::InfoSerialNo(v)
            | GenlDevlinkAttrs::InfoVersionName(v) | GenlDevlinkAttrs::InfoVersionValue(v)
            | GenlDevlinkAttrs::FmsgObjName(v) | GenlDevlinkAttrs::HealthReporterName(v)
            | GenlDevlinkAttrs::FlashUpdateFileName(v)
            | GenlDevlinkAttrs::FlashUpdateComponent(v)
            | GenlDevlinkAttrs::FlashUpdateStatusMsg(v) | GenlDevlinkAttrs::TrapName(v)
            | GenlDevlinkAttrs::TrapGroupName(v) | GenlDevlinkAttrs::InfoBoardSerialNumber(v)
            | GenlDevlinkAttrs::RateNodeName(v) | GenlDevlinkAttrs::RateParentNodeName(v) => v.as_str().len() + 1,
            GenlDevlinkAttrs::RegionChunkData(v) => v.len(),
            GenlDevlinkAttrs::DpipeTables(v) | GenlDevlinkAttrs::DpipeTable(v)
            | GenlDevlinkAttrs::DpipeTableMatches(v) | GenlDevlinkAttrs::DpipeTableActions(v)
            | GenlDevlinkAttrs::DpipeEntries(v) | GenlDevlinkAttrs::DpipeEntry(v)
            | GenlDevlinkAttrs::DpipeEntryMatchValues(v)
            | GenlDevlinkAttrs::DpipeEntryActionValues(v) | GenlDevlinkAttrs::DpipeMatch(v)
            | GenlDevlinkAttrs::DpipeMatchValue(v) | GenlDevlinkAttrs::DpipeAction(v)
            | GenlDevlinkAttrs::DpipeActionValue(v) | GenlDevlinkAttrs::DpipeHeaders(v)
            | GenlDevlinkAttrs::DpipeHader(v) | GenlDevlinkAttrs::DpipeHeaderFields(v)
            | GenlDevlinkAttrs::DpipeField(v) | GenlDevlinkAttrs::ResourceList(v)
            | GenlDevlinkAttrs::Resource(v) | GenlDevlinkAttrs::Param(v)
            | GenlDevlinkAttrs::ParamValueList(v) | GenlDevlinkAttrs::ParamValueData(v)
            | GenlDevlinkAttrs::RegionSnapshots(v) | GenlDevlinkAttrs::RegionSnapshot(v)
            | GenlDevlinkAttrs::RegionChunks(v) | GenlDevlinkAttrs::RegionChunk(v)
            | GenlDevlinkAttrs::InfoVersionFixed(v) | GenlDevlinkAttrs::InfoVersionRunning(v)
            | GenlDevlinkAttrs::InfoVersionStored(v) | GenlDevlinkAttrs::Fmsg(v)
            | GenlDevlinkAttrs::FmsgObjValueData(v) | GenlDevlinkAttrs::HealthReporter(v)
            | GenlDevlinkAttrs::Stats(v) | GenlDevlinkAttrs::TrapMetadata(v)
            | GenlDevlinkAttrs::PortFunction(v) | GenlDevlinkAttrs::DevStats(v)
            | GenlDevlinkAttrs::ReloadStats(v) | GenlDevlinkAttrs::ReloadStatsEntry(v)
            | GenlDevlinkAttrs::RemoteReloadStats(v) | GenlDevlinkAttrs::ReloadActionInfo(v)
            | GenlDevlinkAttrs::ReloadActionStats(v) => children_value_len(v),
        }
    }
}

/// The fully framed length of one attribute: header, payload and padding to
/// the 4-byte alignment unit.
pub(crate) fn framed_value_len(c: &GenlDevlinkAttrs) -> (n: usize)
    requires
        framed_len(c@) <= usize::MAX,
    ensures
        n as int == framed_len(c@),
    decreases *c, 1int,
{
    proof {
        lemma_framed_len_bounds(c@);
    }
    let len: usize = c.value_len();
    let rem: usize = len % 4;
    let pad: usize = if rem == 0 { 0 } else { 4 - rem };
    4 + len + pad
}

/// Total framed length of a list of sibling attributes.
pub(crate) fn children_value_len(cs: &Vec<GenlDevlinkAttrs>) -> (n: usize)
    requires
        children_len(models_of(cs@)) <= usize::MAX,
    ensures
        n as int == children_len(models_of(cs@)),
    decreases cs@, 2int,
{
    let ghost ms = models_of(cs@);
    proof {
        lemma_models_of_index(cs@);
    }
    let mut acc: usize = 0;
    let mut i: usize = 0;
    while i < cs.len()
        invariant
            i <= cs.len(),
            children_len(ms) <= usize::MAX,
            ms == models_of(cs@),
            ms.len() == cs@.len(),
            forall|j: int| 0 <= j < cs@.len() ==> ms[j] == attr_model(#[trigger] cs@[j]),
            acc as int == children_len(ms.subrange(0, i as int)),
        decreases cs@.len() - i,
    {
        proof {
            lemma_children_len_split_bound(ms, i as int);
        }
        let fl = framed_value_len(&cs[i]);
        proof {
            assert(ms.subrange(0, i as int).push(ms[i as int]) =~= ms.subrange(0, i as int + 1));
            lemma_children_len_push(ms.subrange(0, i as int), ms[i as int]);
        }
        acc = acc + fl;
        i = i + 1;
    }
    proof {
        assert(ms.subrange(0, cs@.len() as int) =~= ms);
    }
    acc
}

/// Splitting a child list at `i` splits its framed length; the parts are
/// never negative, so every element's frame is bounded by the whole.
pub proof fn lemma_children_len_split(s: Seq<AttrValue>, i: int)
    requires
        0 <= i <= s.len(),
    ensures
        children_len(s) == children_len(s.subrange(0, i)) + children_len(
            s.subrange(i, s.len() as int),
        ),
    decreases i,
{
    if i == 0 {
        assert(s.subrange(0, 0) =~= Seq::<AttrValue>::empty());
        assert(s.subrange(0, s.len() as int) =~= s);
    } else {
        let s1 = s.subrange(1, s.len() as int);
        lemma_children_len_split(s1, i - 1);
        assert(s.subrange(0, i).subrange(1, i) =~= s1.subrange(0, i - 1));
        assert(s.subrange(i, s.len() as int) =~= s1.subrange(i - 1, s1.len() as int));
        assert(s.subrange(0, i)[0] == s[0]);
        assert(children_len(s.subrange(0, i)) == framed_len(s[0]) + children_len(
            s1.subrange(0, i - 1),
        ));
    }
}

/// With the split at `i`, the element at `i` fits under the total whenever
/// that total is bounded.
pub proof fn lemma_children_len_split_bound(s: Seq<AttrValue>, i: int)
    requires
        0 <= i < s.len(),
        children_len(s) <= usize::MAX,
    ensures
        children_len(s) == children_len(s.subrange(0, i)) + children_len(
            s.subrange(i, s.len() as int),
        ),
        children_len(s.subrange(0, i)) + framed_len(s[i]) <= children_len(s),
        children_len(s.subrange(0, i)) >= 0,
        framed_len(s[i]) >= 0,
{
    lemma_children_len_split(s, i);
    let tail = s.subrange(i, s.len() as int);
    assert(tail[0] == s[i]);
    assert(children_len(tail) == framed_len(s[i]) + children_len(
        tail.subrange(1, tail.len() as int),
    ));
    lemma_children_len_nonneg(s.subrange(0, i));
    lemma_children_len_nonneg(tail.subrange(1, tail.len() as int));
    lemma_framed_len_bounds(s[i]);
}

} // verus!
