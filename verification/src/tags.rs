//! The closed attribute-tag table of the devlink generic-netlink family:
//! one wire type code per attribute kind, and the payload shape that each
//! code carries.
use vstd::prelude::*;

verus! {

pub const DEVLINK_ATTR_BUS_NAME: u16 = 1;
pub const DEVLINK_ATTR_LOCATION: u16 = 2;
pub const DEVLINK_ATTR_PORT_INDEX: u16 = 3;
pub const DEVLINK_ATTR_PORT_TYPE: u16 = 4;
pub const DEVLINK_ATTR_DESIRED_TYPE: u16 = 5;
pub const DEVLINK_ATTR_NETDEV_IF_INDEX: u16 = 6;
pub const DEVLINK_ATTR_NETDEV_NAME: u16 = 7;
pub const DEVLINK_ATTR_PORT_IBDEV_NAME: u16 = 8;
pub const DEVLINK_ATTR_PORT_SPLIT_COUNT: u16 = 9;
pub const DEVLINK_ATTR_PORT_SPLIT_GROUP: u16 = 10;
pub const DEVLINK_ATTR_SB_INDEX: u16 = 11;
pub const DEVLINK_ATTR_SB_SIZE: u16 = 12;
pub const DEVLINK_ATTR_SB_INGRESS_POOL_COUNT: u16 = 13;
pub const DEVLINK_ATTR_SB_EGRESS_POOL_COUNT: u16 = 14;
pub const DEVLINK_ATTR_SB_INGRESS_TC_COUNT: u16 = 15;
pub const DEVLINK_ATTR_SB_EGRESS_TC_COUNT: u16 = 16;
pub const DEVLINK_ATTR_SB_POOL_INDEX: u16 = 17;
pub const DEVLINK_ATTR_SB_POOL_TYPE: u16 = 18;
pub const DEVLINK_ATTR_SB_POOL_SIZE: u16 = 19;
pub const DEVLINK_ATTR_SB_POOL_THRESHOLD_TYPE: u16 = 20;
pub const DEVLINK_ATTR_SB_THRESHOLD: u16 = 21;
pub const DEVLINK_ATTR_SB_TC_INDEX: u16 = 22;
pub const DEVLINK_ATTR_SB_OCC_CUR: u16 = 23;
pub const DEVLINK_ATTR_SB_OCC_MAX: u16 = 24;
pub const DEVLINK_ATTR_ESWITCH_MODE: u16 = 25;
pub const DEVLINK_ATTR_ESWITCH_INLINE_MODE: u16 = 26;
pub const DEVLINK_ATTR_DPIPE_TABLES: u16 = 27;
pub const DEVLINK_ATTR_DPIPE_TABLE: u16 = 28;
pub const DEVLINK_ATTR_DPIPE_TABLE_NAME: u16 = 29;
pub const DEVLINK_ATTR_DPIPE_TABLE_SIZE: u16 = 30;
pub const DEVLINK_ATTR_DPIPE_TABLE_MATCHES: u16 = 31;
pub const DEVLINK_ATTR_DPIPE_TABLE_ACTIONS: u16 = 32;
pub const DEVLINK_ATTR_DPIPE_TABLE_COUNTERS_ENABLED: u16 = 33;
pub const DEVLINK_ATTR_DPIPE_ENTRIES: u16 = 34;
pub const DEVLINK_ATTR_DPIPE_ENTRY: u16 = 35;
pub const DEVLINK_ATTR_DPIPE_ENTRY_INDEX: u16 = 36;
pub const DEVLINK_ATTR_DPIPE_ENTRY_MATCH_VALUES: u16 = 37;
pub const DEVLINK_ATTR_DPIPE_ENTRY_ACTION_VALUES: u16 = 38;
pub const DEVLINK_ATTR_DPIPE_ENTRY_COUNTER: u16 = 39;
pub const DEVLINK_ATTR_DPIPE_MATCH: u16 = 40;
pub const DEVLINK_ATTR_DPIPE_MATCH_VALUE: u16 = 41;
pub const DEVLINK_ATTR_DPIPE_MATCH_TYPE: u16 = 42;
pub const DEVLINK_ATTR_DPIPE_ACTION: u16 = 43;
pub const DEVLINK_ATTR_DPIPE_ACTION_VALUE: u16 = 44;
pub const DEVLINK_ATTR_DPIPE_ACTION_TYPE: u16 = 45;
pub const DEVLINK_ATTR_DPIPE_VALUE: u16 = 46;
pub const DEVLINK_ATTR_DPIPE_VALUE_MASK: u16 = 47;
pub const DEVLINK_ATTR_DPIPE_VALUE_MAPPING: u16 = 48;
pub const DEVLINK_ATTR_DPIPE_HEADERS: u16 = 49;
pub const DEVLINK_ATTR_DPIPE_HEADER: u16 = 50;
pub const DEVLINK_ATTR_DPIPE_HEADER_NAME: u16 = 51;
pub const DEVLINK_ATTR_DPIPE_HEADER_ID: u16 = 52;
pub const DEVLINK_ATTR_DPIPE_HEADER_FIELDS: u16 = 53;
pub const DEVLINK_ATTR_DPIPE_HEADER_GLOBAL: u16 = 54;
pub const DEVLINK_ATTR_DPIPE_HEADER_INDEX: u16 = 55;
pub const DEVLINK_ATTR_DPIPE_FIELD: u16 = 56;
pub const DEVLINK_ATTR_DPIPE_FIELD_NAME: u16 = 57;
pub const DEVLINK_ATTR_DPIPE_FIELD_ID: u16 = 58;
pub const DEVLINK_ATTR_DPIPE_FIELD_BITWIDTH: u16 = 59;
pub const DEVLINK_ATTR_DPIPE_FIELD_MAPPING_TYPE: u16 = 60;
pub const DEVLINK_ATTR_ESWITCH_ENCAP_MODE: u16 = 62;
pub const DEVLINK_ATTR_RESOURCE_LIST: u16 = 63;
pub const DEVLINK_ATTR_RESOURCE: u16 = 64;
pub const DEVLINK_ATTR_RESOURCE_NAME: u16 = 65;
pub const DEVLINK_ATTR_RESOURCE_ID: u16 = 66;
pub const DEVLINK_ATTR_RESOURCE_SIZE: u16 = 67;
pub const DEVLINK_ATTR_RESOURCE_SIZE_NEW: u16 = 68;
pub const DEVLINK_ATTR_RESOURCE_SIZE_VALID: u16 = 69;
pub const DEVLINK_ATTR_RESOURCE_SIZE_MIN: u16 = 70;
pub const DEVLINK_ATTR_RESOURCE_SIZE_MAX: u16 = 71;
pub const DEVLINK_ATTR_RESOURCE_SIZE_GRAN: u16 = 72;
pub const DEVLINK_ATTR_RESOURCE_UNIT: u16 = 73;
pub const DEVLINK_ATTR_RESOURCE_OCC: u16 = 74;
pub const DEVLINK_ATTR_DPIPE_TABLE_RESOURCE_ID: u16 = 75;
pub const DEVLINK_ATTR_DPIPE_TABLE_RESOURCE_UNITS: u16 = 76;
pub const DEVLINK_ATTR_PORT_FLAVOUR: u16 = 77;
pub const DEVLINK_ATTR_PORT_NUMBER: u16 = 78;
pub const DEVLINK_ATTR_PARAM: u16 = 80;
pub const DEVLINK_ATTR_PARAM_NAME: u16 = 81;
pub const DEVLINK_ATTR_PARAM_GENERIC: u16 = 82;
pub const DEVLINK_ATTR_PARAM_TYPE: u16 = 83;
pub const DEVLINK_ATTR_PARAM_VALUES_LIST: u16 = 84;
pub const DEVLINK_ATTR_PARAM_VALUE: u16 = 85;
pub const DEVLINK_ATTR_PARAM_VALUE_DATA: u16 = 86;
pub const DEVLINK_ATTR_PARAM_VALUE_CMODE: u16 = 87;
pub const DEVLINK_ATTR_REGION_NAME: u16 = 88;
pub const DEVLINK_ATTR_REGION_SIZE: u16 = 89;
pub const DEVLINK_ATTR_REGION_SNAPSHOTS: u16 = 90;
pub const DEVLINK_ATTR_REGION_SNAPSHOT: u16 = 91;
pub const DEVLINK_ATTR_REGION_SNAPSHOT_ID: u16 = 92;
pub const DEVLINK_ATTR_REGION_CHUNKS: u16 = 93;
pub const DEVLINK_ATTR_REGION_CHUNK: u16 = 94;
pub const DEVLINK_ATTR_REGION_CHUNK_DATA: u16 = 95;
pub const DEVLINK_ATTR_REGION_CHUNK_ADDR: u16 = 96;
pub const DEVLINK_ATTR_REGION_CHUNK_LEN: u16 = 97;
pub const DEVLINK_ATTR_INFO_DRIVER_NAME: u16 = 98;
pub const DEVLINK_ATTR_INFO_SERIAL_NUMBER: u16 = 99;
pub const DEVLINK_ATTR_INFO_VERSION_FIXED: u16 = 100;
pub const DEVLINK_ATTR_INFO_VERSION_RUNNING: u16 = 101;
pub const DEVLINK_ATTR_INFO_VERSION_STORED: u16 = 102;
pub const DEVLINK_ATTR_INFO_VERSION_NAME: u16 = 103;
pub const DEVLINK_ATTR_INFO_VERSION_VALUE: u16 = 104;
pub const DEVLINK_ATTR_SB_POOL_CELL_SIZE: u16 = 105;
pub const DEVLINK_ATTR_FMSG: u16 = 106;
pub const DEVLINK_ATTR_FMSG_OBJ_NEST_START: u16 = 107;
pub const DEVLINK_ATTR_FMSG_PAIR_NEST_START: u16 = 108;
pub const DEVLINK_ATTR_FMSG_ARR_NEST_START: u16 = 109;
pub const DEVLINK_ATTR_FMSG_NEST_END: u16 = 110;
pub const DEVLINK_ATTR_FMSG_OBJ_NAME: u16 = 111;
pub const DEVLINK_ATTR_FMSG_OBJ_VALUE_TYPE: u16 = 112;
pub const DEVLINK_ATTR_FMSG_OBJ_VALUE_DATA: u16 = 113;
pub const DEVLINK_ATTR_HEALTH_REPORTER: u16 = 114;
pub const DEVLINK_ATTR_HEALTH_REPORTER_NAME: u16 = 115;
pub const DEVLINK_ATTR_HEALTH_REPORTER_STATE: u16 = 116;
pub const DEVLINK_ATTR_HEALTH_REPORTER_ERR_COUNT: u16 = 117;
pub const DEVLINK_ATTR_HEALTH_REPORTER_RECOVER_COUNT: u16 = 118;
pub const DEVLINK_ATTR_HEALTH_REPORTER_DUMP_TS: u16 = 119;
pub const DEVLINK_ATTR_HEALTH_REPORTER_GRACEFUL_PERIOD: u16 = 120;
pub const DEVLINK_ATTR_HEALTH_REPORTER_AUTO_RECOVER: u16 = 121;
pub const DEVLINK_ATTR_FLASH_UPDATE_FILE_NAME: u16 = 122;
pub const DEVLINK_ATTR_FLASH_UPDATE_COMPONENT: u16 = 123;
pub const DEVLINK_ATTR_FLASH_UPDATE_STATUS_MSG: u16 = 124;
pub const DEVLINK_ATTR_FLASH_UPDATE_STATUS_DONE: u16 = 125;
pub const DEVLINK_ATTR_FLASH_UPDATE_STATUS_TOTAL: u16 = 126;
pub const DEVLINK_ATTR_PORT_PCI_PF_NUMBER: u16 = 127;
pub const DEVLINK_ATTR_PORT_PCI_VF_NUMBER: u16 = 128;
pub const DEVLINK_ATTR_STATS: u16 = 129;
pub const DEVLINK_ATTR_TRAP_NAME: u16 = 130;
pub const DEVLINK_ATTR_TRAP_ACTION: u16 = 131;
pub const DEVLINK_ATTR_TRAP_TYPE: u16 = 132;
pub const DEVLINK_ATTR_TRAP_GENERIC: u16 = 133;
pub const DEVLINK_ATTR_TRAP_METADATA: u16 = 134;
pub const DEVLINK_ATTR_TRAP_GROUP_NAME: u16 = 135;
pub const DEVLINK_ATTR_RELOAD_FAILED: u16 = 136;
pub const DEVLINK_ATTR_HEALTH_REPORTER_DUMP_TS_NS: u16 = 137;
pub const DEVLINK_ATTR_NETNS_FD: u16 = 138;
pub const DEVLINK_ATTR_NETNS_PID: u16 = 139;
pub const DEVLINK_ATTR_NETNS_ID: u16 = 140;
pub const DEVLINK_ATTR_HEALTH_REPORTER_AUTO_DUMP: u16 = 141;
pub const DEVLINK_ATTR_TRAP_POLICER_ID: u16 = 142;
pub const DEVLINK_ATTR_TRAP_POLICER_RATE: u16 = 143;
pub const DEVLINK_ATTR_TRAP_POLICER_BURST: u16 = 144;
pub const DEVLINK_ATTR_PORT_FUNCTION: u16 = 145;
pub const DEVLINK_ATTR_INFO_BOARD_SERIAL_NUMBER: u16 = 146;
pub const DEVLINK_ATTR_PORT_LANES: u16 = 147;
pub const DEVLINK_ATTR_PORT_SPLITTABLE: u16 = 148;
pub const DEVLINK_ATTR_PORT_EXTERNAL: u16 = 149;
pub const DEVLINK_ATTR_PORT_CONTROLLER_NUMBER: u16 = 150;
pub const DEVLINK_ATTR_FLASH_UPDATE_STATUS_TIMEOUT: u16 = 151;
pub const DEVLINK_ATTR_FLASH_UPDATE_OVERWRITE_MASK: u16 = 152;
pub const DEVLINK_ATTR_RELOAD_ACTION: u16 = 153;
pub const DEVLINK_ATTR_RELOAD_ACTIONS_PERFORMED: u16 = 154;
pub const DEVLINK_ATTR_RELOAD_LIMITS: u16 = 155;
pub const DEVLINK_ATTR_DEV_STATS: u16 = 156;
pub const DEVLINK_ATTR_RELOAD_STATS: u16 = 157;
pub const DEVLINK_ATTR_RELOAD_STATS_ENTRY: u16 = 158;
pub const DEVLINK_ATTR_RELOAD_STATS_LIMIT: u16 = 159;
pub const DEVLINK_ATTR_RELOAD_STATS_VALUE: u16 = 160;
pub const DEVLINK_ATTR_REMOTE_RELOAD_STATS: u16 = 161;
pub const DEVLINK_ATTR_RELOAD_ACTION_INFO: u16 = 162;
pub const DEVLINK_ATTR_RELOAD_ACTION_STATS: u16 = 163;
pub const DEVLINK_ATTR_PORT_PCI_SF_NUMBER: u16 = 164;
pub const DEVLINK_ATTR_RATE_TYPE: u16 = 165;
pub const DEVLINK_ATTR_RATE_TX_SHARE: u16 = 166;
pub const DEVLINK_ATTR_RATE_TX_MAX: u16 = 167;
pub const DEVLINK_ATTR_RATE_NODE_NAME: u16 = 168;
pub const DEVLINK_ATTR_RATE_PARENT_NODE_NAME: u16 = 169;
pub const DEVLINK_ATTR_REGION_MAX_SNAPSHOTS: u16 = 170;

/// Bits of an attribute header's type field that carry the type code itself;
/// the two top bits are the "nested" and "network byte order" flags.
pub const NLA_TYPE_MASK: u16 = 0x3fff;

/// The "nested" flag bit of an attribute header's type field.
pub const NLA_F_NESTED: u16 = 0x8000;

/// The payload shapes an attribute can carry on the wire.
pub enum AttrKind {
    U8,
    U16,
    U32,
    U64,
    Flag,
    Text,
    Bytes,
    Nested,
}

/// The tag table: which payload shape each wire type code carries.
/// Codes outside this closed set decode to a hard failure.
pub open spec fn tag_kind(tag: u16) -> Option<AttrKind> {
    if tag == DEVLINK_ATTR_SB_POOL_TYPE || tag == DEVLINK_ATTR_SB_POOL_THRESHOLD_TYPE
        || tag == DEVLINK_ATTR_ESWITCH_INLINE_MODE
        || tag == DEVLINK_ATTR_DPIPE_TABLE_COUNTERS_ENABLED
        || tag == DEVLINK_ATTR_DPIPE_HEADER_GLOBAL || tag == DEVLINK_ATTR_ESWITCH_ENCAP_MODE
        || tag == DEVLINK_ATTR_RESOURCE_SIZE_VALID || tag == DEVLINK_ATTR_RESOURCE_UNIT
        || tag == DEVLINK_ATTR_PARAM_TYPE || tag == DEVLINK_ATTR_PARAM_VALUE_CMODE
        || tag == DEVLINK_ATTR_FMSG_OBJ_VALUE_TYPE || tag == DEVLINK_ATTR_HEALTH_REPORTER_STATE
        || tag == DEVLINK_ATTR_HEALTH_REPORTER_AUTO_RECOVER || tag == DEVLINK_ATTR_TRAP_ACTION
        || tag == DEVLINK_ATTR_TRAP_TYPE || tag == DEVLINK_ATTR_RELOAD_FAILED
        || tag == DEVLINK_ATTR_HEALTH_REPORTER_AUTO_DUMP || tag == DEVLINK_ATTR_PORT_SPLITTABLE
        || tag == DEVLINK_ATTR_PORT_EXTERNAL || tag == DEVLINK_ATTR_RELOAD_ACTION
        || tag == DEVLINK_ATTR_RELOAD_STATS_LIMIT {
        Some(AttrKind::U8)
    } else if tag == DEVLINK_ATTR_PORT_TYPE || tag == DEVLINK_ATTR_DESIRED_TYPE
        || tag == DEVLINK_ATTR_SB_INGRESS_POOL_COUNT || tag == DEVLINK_ATTR_SB_EGRESS_POOL_COUNT
        || tag == DEVLINK_ATTR_SB_INGRESS_TC_COUNT || tag == DEVLINK_ATTR_SB_EGRESS_TC_COUNT
        || tag == DEVLINK_ATTR_SB_POOL_INDEX || tag == DEVLINK_ATTR_SB_TC_INDEX
        || tag == DEVLINK_ATTR_ESWITCH_MODE || tag == DEVLINK_ATTR_PORT_FLAVOUR
        || tag == DEVLINK_ATTR_PORT_PCI_PF_NUMBER || tag == DEVLINK_ATTR_PORT_PCI_VF_NUMBER
        || tag == DEVLINK_ATTR_RATE_TYPE {
        Some(AttrKind::U16)
    } else if tag == DEVLINK_ATTR_PORT_INDEX || tag == DEVLINK_ATTR_NETDEV_IF_INDEX
        || tag == DEVLINK_ATTR_PORT_SPLIT_COUNT || tag == DEVLINK_ATTR_PORT_SPLIT_GROUP
        || tag == DEVLINK_ATTR_SB_INDEX || tag == DEVLINK_ATTR_SB_SIZE
        || tag == DEVLINK_ATTR_SB_POOL_SIZE || tag == DEVLINK_ATTR_SB_THRESHOLD
        || tag == DEVLINK_ATTR_SB_OCC_CUR || tag == DEVLINK_ATTR_SB_OCC_MAX
        || tag == DEVLINK_ATTR_DPIPE_MATCH_TYPE || tag == DEVLINK_ATTR_DPIPE_ACTION_TYPE
        || tag == DEVLINK_ATTR_DPIPE_VALUE || tag == DEVLINK_ATTR_DPIPE_VALUE_MASK
        || tag == DEVLINK_ATTR_DPIPE_VALUE_MAPPING || tag == DEVLINK_ATTR_DPIPE_HEADER_ID
        || tag == DEVLINK_ATTR_DPIPE_HEADER_INDEX || tag == DEVLINK_ATTR_DPIPE_FIELD_ID
        || tag == DEVLINK_ATTR_DPIPE_FIELD_BITWIDTH
        || tag == DEVLINK_ATTR_DPIPE_FIELD_MAPPING_TYPE || tag == DEVLINK_ATTR_PORT_NUMBER
        || tag == DEVLINK_ATTR_REGION_SNAPSHOT_ID || tag == DEVLINK_ATTR_SB_POOL_CELL_SIZE
        || tag == DEVLINK_ATTR_NETNS_FD || tag == DEVLINK_ATTR_NETNS_PID
        || tag == DEVLINK_ATTR_NETNS_ID || tag == DEVLINK_ATTR_TRAP_POLICER_ID
        || tag == DEVLINK_ATTR_PORT_LANES || tag == DEVLINK_ATTR_PORT_CONTROLLER_NUMBER
        || tag == DEVLINK_ATTR_FLASH_UPDATE_STATUS_TIMEOUT
        || tag == DEVLINK_ATTR_FLASH_UPDATE_OVERWRITE_MASK
        || tag == DEVLINK_ATTR_RELOAD_ACTIONS_PERFORMED || tag == DEVLINK_ATTR_RELOAD_LIMITS
        || tag == DEVLINK_ATTR_RELOAD_STATS_VALUE || tag == DEVLINK_ATTR_PORT_PCI_SF_NUMBER
        || tag == DEVLINK_ATTR_REGION_MAX_SNAPSHOTS {
        Some(AttrKind::U32)
    } else if tag == DEVLINK_ATTR_DPIPE_TABLE_SIZE || tag == DEVLINK_ATTR_DPIPE_ENTRY_INDEX
        || tag == DEVLINK_ATTR_DPIPE_ENTRY_COUNTER || tag == DEVLINK_ATTR_RESOURCE_ID
        || tag == DEVLINK_ATTR_RESOURCE_SIZE || tag == DEVLINK_ATTR_RESOURCE_SIZE_NEW
        || tag == DEVLINK_ATTR_RESOURCE_SIZE_MIN || tag == DEVLINK_ATTR_RESOURCE_SIZE_MAX
        || tag == DEVLINK_ATTR_RESOURCE_SIZE_GRAN || tag == DEVLINK_ATTR_RESOURCE_OCC
        || tag == DEVLINK_ATTR_DPIPE_TABLE_RESOURCE_ID
        || tag == DEVLINK_ATTR_DPIPE_TABLE_RESOURCE_UNITS || tag == DEVLINK_ATTR_PARAM_VALUE
        || tag == DEVLINK_ATTR_REGION_SIZE || tag == DEVLINK_ATTR_REGION_CHUNK_ADDR
        || tag == DEVLINK_ATTR_REGION_CHUNK_LEN
        || tag == DEVLINK_ATTR_HEALTH_REPORTER_ERR_COUNT
        || tag == DEVLINK_ATTR_HEALTH_REPORTER_RECOVER_COUNT
        || tag == DEVLINK_ATTR_HEALTH_REPORTER_DUMP_TS
        || tag == DEVLINK_ATTR_HEALTH_REPORTER_GRACEFUL_PERIOD
        || tag == DEVLINK_ATTR_FLASH_UPDATE_STATUS_DONE
        || tag == DEVLINK_ATTR_FLASH_UPDATE_STATUS_TOTAL
        || tag == DEVLINK_ATTR_HEALTH_REPORTER_DUMP_TS_NS
        || tag == DEVLINK_ATTR_TRAP_POLICER_RATE || tag == DEVLINK_ATTR_TRAP_POLICER_BURST
        || tag == DEVLINK_ATTR_RATE_TX_SHARE || tag == DEVLINK_ATTR_RATE_TX_MAX {
        Some(AttrKind::U64)
    } else if tag == DEVLINK_ATTR_PARAM_GENERIC || tag == DEVLINK_ATTR_TRAP_GENERIC
        || tag == DEVLINK_ATTR_FMSG_OBJ_NEST_START || tag == DEVLINK_ATTR_FMSG_PAIR_NEST_START
        || tag == DEVLINK_ATTR_FMSG_ARR_NEST_START || tag == DEVLINK_ATTR_FMSG_NEST_END {
        Some(AttrKind::Flag)
    } else if tag == DEVLINK_ATTR_BUS_NAME || tag == DEVLINK_ATTR_LOCATION
        || tag == DEVLINK_ATTR_NETDEV_NAME || tag == DEVLINK_ATTR_PORT_IBDEV_NAME
        || tag == DEVLINK_ATTR_DPIPE_TABLE_NAME || tag == DEVLINK_ATTR_DPIPE_HEADER_NAME
        || tag == DEVLINK_ATTR_DPIPE_FIELD_NAME || tag == DEVLINK_ATTR_RESOURCE_NAME
        || tag == DEVLINK_ATTR_PARAM_NAME || tag == DEVLINK_ATTR_REGION_NAME
        || tag == DEVLINK_ATTR_INFO_DRIVER_NAME || tag == DEVLINK_ATTR_INFO_SERIAL_NUMBER
        || tag == DEVLINK_ATTR_INFO_VERSION_NAME || tag == DEVLINK_ATTR_INFO_VERSION_VALUE
        || tag == DEVLINK_ATTR_FMSG_OBJ_NAME || tag == DEVLINK_ATTR_HEALTH_REPORTER_NAME
        || tag == DEVLINK_ATTR_FLASH_UPDATE_FILE_NAME
        || tag == DEVLINK_ATTR_FLASH_UPDATE_COMPONENT
        || tag == DEVLINK_ATTR_FLASH_UPDATE_STATUS_MSG || tag == DEVLINK_ATTR_TRAP_NAME
        || tag == DEVLINK_ATTR_TRAP_GROUP_NAME || tag == DEVLINK_ATTR_INFO_BOARD_SERIAL_NUMBER
        || tag == DEVLINK_ATTR_RATE_NODE_NAME || tag == DEVLINK_ATTR_RATE_PARENT_NODE_NAME {
        Some(AttrKind::Text)
    } else if tag == DEVLINK_ATTR_REGION_CHUNK_DATA {
        Some(AttrKind::Bytes)
    } else if tag == DEVLINK_ATTR_DPIPE_TABLES || tag == DEVLINK_ATTR_DPIPE_TABLE
        || tag == DEVLINK_ATTR_DPIPE_TABLE_MATCHES || tag == DEVLINK_ATTR_DPIPE_TABLE_ACTIONS
        || tag == DEVLINK_ATTR_DPIPE_ENTRIES || tag == DEVLINK_ATTR_DPIPE_ENTRY
        || tag == DEVLINK_ATTR_DPIPE_ENTRY_MATCH_VALUES
        || tag == DEVLINK_ATTR_DPIPE_ENTRY_ACTION_VALUES || tag == DEVLINK_ATTR_DPIPE_MATCH
        || tag == DEVLINK_ATTR_DPIPE_MATCH_VALUE || tag == DEVLINK_ATTR_DPIPE_ACTION
        || tag == DEVLINK_ATTR_DPIPE_ACTION_VALUE || tag == DEVLINK_ATTR_DPIPE_HEADERS
        || tag == DEVLINK_ATTR_DPIPE_HEADER || tag == DEVLINK_ATTR_DPIPE_HEADER_FIELDS
        || tag == DEVLINK_ATTR_DPIPE_FIELD || tag == DEVLINK_ATTR_RESOURCE_LIST
        || tag == DEVLINK_ATTR_RESOURCE || tag == DEVLINK_ATTR_PARAM
        || tag == DEVLINK_ATTR_PARAM_VALUES_LIST || tag == DEVLINK_ATTR_PARAM_VALUE_DATA
        || tag == DEVLINK_ATTR_REGION_SNAPSHOTS || tag == DEVLINK_ATTR_REGION_SNAPSHOT
        || tag == DEVLINK_ATTR_REGION_CHUNKS || tag == DEVLINK_ATTR_REGION_CHUNK
        || tag == DEVLINK_ATTR_INFO_VERSION_FIXED || tag == DEVLINK_ATTR_INFO_VERSION_RUNNING
        || tag == DEVLINK_ATTR_INFO_VERSION_STORED || tag == DEVLINK_ATTR_FMSG
        || tag == DEVLINK_ATTR_FMSG_OBJ_VALUE_DATA || tag == DEVLINK_ATTR_HEALTH_REPORTER
        || tag == DEVLINK_ATTR_STATS || tag == DEVLINK_ATTR_TRAP_METADATA
        || tag == DEVLINK_ATTR_PORT_FUNCTION || tag == DEVLINK_ATTR_DEV_STATS
        || tag == DEVLINK_ATTR_RELOAD_STATS || tag == DEVLINK_ATTR_RELOAD_STATS_ENTRY
        || tag == DEVLINK_ATTR_REMOTE_RELOAD_STATS || tag == DEVLINK_ATTR_RELOAD_ACTION_INFO
        || tag == DEVLINK_ATTR_RELOAD_ACTION_STATS {
        Some(AttrKind::Nested)
    } else {
        None
    }
}

/// Every code in the closed table leaves the two flag bits clear, so a type
/// field built as `tag` or `tag | NLA_F_NESTED` always masks back to `tag`.
pub proof fn lemma_known_tag_small(tag: u16)
    requires
        tag_kind(tag) is Some,
    ensures
        tag & NLA_TYPE_MASK == tag,
        (tag | NLA_F_NESTED) & NLA_TYPE_MASK == tag,
{
    assert(tag < 0x4000);
    assert(tag < 0x4000 ==> tag & 0x3fff == tag) by (bit_vector);
    assert(tag < 0x4000 ==> (tag | 0x8000) & 0x3fff == tag) by (bit_vector);
}

} // verus!
