use byteorder::{ByteOrder, NativeEndian};
use devlink_codec::attr::GenlDevlinkAttrs;
use devlink_codec::decode::DecodeError;
use devlink_codec::encode::encode_attribute;
use devlink_codec::tags::{
    DEVLINK_ATTR_BUS_NAME, DEVLINK_ATTR_ESWITCH_MODE, DEVLINK_ATTR_FMSG,
    DEVLINK_ATTR_FMSG_NEST_END, DEVLINK_ATTR_FMSG_OBJ_NEST_START, DEVLINK_ATTR_PARAM,
    DEVLINK_ATTR_PARAM_NAME, DEVLINK_ATTR_PARAM_TYPE, DEVLINK_ATTR_PORT_INDEX,
    DEVLINK_ATTR_REGION_CHUNK_DATA, DEVLINK_ATTR_REGION_CHUNK_LEN, DEVLINK_ATTR_REGION_SIZE,
    DEVLINK_ATTR_REGION_SNAPSHOTS, DEVLINK_ATTR_RESOURCE_OCC, DEVLINK_ATTR_TRAP_GENERIC,
};
use netlink_packet_utils::nla::NlaBuffer;
use netlink_packet_utils::parsers::{parse_string, parse_u32};

#[test]
fn text_eth0_payload_bytes() {
    let attr = GenlDevlinkAttrs::BusName(String::from("eth0"));
    assert_eq!(attr.value_len(), 5);
    let bytes = encode_attribute(&attr);
    assert_eq!(bytes, vec![0x65, 0x74, 0x68, 0x30, 0x00]);
    let back = GenlDevlinkAttrs::parse(DEVLINK_ATTR_BUS_NAME, &bytes).unwrap();
    assert_eq!(back, attr);
}

#[test]
fn u32_native_order_and_truncation() {
    let attr = GenlDevlinkAttrs::PortIndex(42);
    assert_eq!(attr.value_len(), 4);
    let bytes = encode_attribute(&attr);
    assert_eq!(bytes, 42u32.to_ne_bytes().to_vec());
    let back = GenlDevlinkAttrs::parse(DEVLINK_ATTR_PORT_INDEX, &bytes).unwrap();
    assert_eq!(back, attr);
    let err = GenlDevlinkAttrs::parse(DEVLINK_ATTR_PORT_INDEX, &bytes[..3]).unwrap_err();
    assert!(matches!(
        err,
        DecodeError::InvalidValue { tag: DEVLINK_ATTR_PORT_INDEX, .. }
    ));
}

#[test]
fn nested_two_flags_round_trip_in_order() {
    let attr = GenlDevlinkAttrs::Fmsg(vec![
        GenlDevlinkAttrs::FmsgObjNestStart(true),
        GenlDevlinkAttrs::FmsgNestEnd(false),
    ]);
    let bytes = encode_attribute(&attr);
    let back = GenlDevlinkAttrs::parse(DEVLINK_ATTR_FMSG, &bytes).unwrap();
    match &back {
        GenlDevlinkAttrs::Fmsg(children) => {
            assert_eq!(children.len(), 2);
            assert_eq!(children[0], GenlDevlinkAttrs::FmsgObjNestStart(true));
            assert_eq!(children[1], GenlDevlinkAttrs::FmsgNestEnd(false));
        }
        other => panic!("expected Fmsg, got {other:?}"),
    }
    assert_eq!(back, attr);
}

#[test]
fn scalar_round_trips_every_width() {
    let cases = vec![
        (GenlDevlinkAttrs::ParamType(0xab), DEVLINK_ATTR_PARAM_TYPE, 1),
        (GenlDevlinkAttrs::EswitchMode(0xbeef), DEVLINK_ATTR_ESWITCH_MODE, 2),
        (GenlDevlinkAttrs::PortIndex(0xdead_beef), DEVLINK_ATTR_PORT_INDEX, 4),
        (
            GenlDevlinkAttrs::ResourceOcc(0x0123_4567_89ab_cdef),
            DEVLINK_ATTR_RESOURCE_OCC,
            8,
        ),
    ];
    for (attr, tag, width) in cases {
        assert_eq!(attr.kind(), tag);
        assert_eq!(attr.value_len(), width);
        let bytes = encode_attribute(&attr);
        assert_eq!(bytes.len(), width);
        let back = GenlDevlinkAttrs::parse(tag, &bytes).unwrap();
        assert_eq!(back, attr);
    }
}

#[test]
fn scalar_truncation_each_width_is_invalid_value() {
    let cases = vec![
        (DEVLINK_ATTR_PARAM_TYPE, 2usize),
        (DEVLINK_ATTR_ESWITCH_MODE, 1),
        (DEVLINK_ATTR_PORT_INDEX, 2),
        (DEVLINK_ATTR_RESOURCE_OCC, 7),
        (DEVLINK_ATTR_TRAP_GENERIC, 0),
    ];
    for (tag, len) in cases {
        let payload = vec![0u8; len];
        let err = GenlDevlinkAttrs::parse(tag, &payload).unwrap_err();
        match err {
            DecodeError::InvalidValue { tag: t, .. } => assert_eq!(t, tag),
            other => panic!("expected InvalidValue for tag {tag}, got {other:?}"),
        }
    }
}

#[test]
fn flag_any_nonzero_reads_true_and_emits_as_one() {
    let t = GenlDevlinkAttrs::TrapGeneric(true);
    assert_eq!(encode_attribute(&t), vec![1u8]);
    let f = GenlDevlinkAttrs::TrapGeneric(false);
    assert_eq!(encode_attribute(&f), vec![0u8]);
    assert_eq!(
        GenlDevlinkAttrs::parse(DEVLINK_ATTR_TRAP_GENERIC, &[2]).unwrap(),
        GenlDevlinkAttrs::TrapGeneric(true)
    );
    assert_eq!(
        GenlDevlinkAttrs::parse(DEVLINK_ATTR_TRAP_GENERIC, &[0]).unwrap(),
        GenlDevlinkAttrs::TrapGeneric(false)
    );
}

#[test]
fn text_without_terminator_and_empty_payload_decode() {
    let no_nul = GenlDevlinkAttrs::parse(DEVLINK_ATTR_BUS_NAME, b"pci").unwrap();
    assert_eq!(no_nul, GenlDevlinkAttrs::BusName(String::from("pci")));
    let empty = GenlDevlinkAttrs::parse(DEVLINK_ATTR_BUS_NAME, &[]).unwrap();
    assert_eq!(empty, GenlDevlinkAttrs::BusName(String::new()));
    let only_nul = GenlDevlinkAttrs::parse(DEVLINK_ATTR_BUS_NAME, &[0]).unwrap();
    assert_eq!(only_nul, GenlDevlinkAttrs::BusName(String::new()));
}

#[test]
fn text_round_trips_interior_nul_and_non_ascii() {
    let tricky = GenlDevlinkAttrs::BusName(String::from("a\u{0}b"));
    let bytes = encode_attribute(&tricky);
    assert_eq!(bytes, vec![b'a', 0, b'b', 0]);
    let back = GenlDevlinkAttrs::parse(DEVLINK_ATTR_BUS_NAME, &bytes).unwrap();
    assert_eq!(back, tricky);

    let accented = GenlDevlinkAttrs::ParamName(String::from("caf\u{e9}"));
    let bytes = encode_attribute(&accented);
    assert_eq!(bytes, vec![b'c', b'a', b'f', 0xc3, 0xa9, 0]);
    let back = GenlDevlinkAttrs::parse(DEVLINK_ATTR_PARAM_NAME, &bytes).unwrap();
    assert_eq!(back, accented);
}

#[test]
fn text_invalid_utf8_is_invalid_value() {
    let err = GenlDevlinkAttrs::parse(DEVLINK_ATTR_BUS_NAME, &[0xff, 0xfe, 0x00]).unwrap_err();
    assert!(matches!(
        err,
        DecodeError::InvalidValue { tag: DEVLINK_ATTR_BUS_NAME, .. }
    ));
}

#[test]
fn bytes_payload_verbatim_no_terminator() {
    let blob = GenlDevlinkAttrs::RegionChunkData(vec![0, 1, 2, 0xff, 0]);
    assert_eq!(blob.value_len(), 5);
    let bytes = encode_attribute(&blob);
    assert_eq!(bytes, vec![0, 1, 2, 0xff, 0]);
    let back = GenlDevlinkAttrs::parse(DEVLINK_ATTR_REGION_CHUNK_DATA, &bytes).unwrap();
    assert_eq!(back, blob);
    let empty = GenlDevlinkAttrs::parse(DEVLINK_ATTR_REGION_CHUNK_DATA, &[]).unwrap();
    assert_eq!(empty, GenlDevlinkAttrs::RegionChunkData(vec![]));
}

#[test]
fn unknown_tags_fail_hard() {
    for tag in [0u16, 61, 79, 200, 0x3fff, 0x8003, 0xffff] {
        let err = GenlDevlinkAttrs::parse(tag, &[0, 0, 0, 0]).unwrap_err();
        match err {
            DecodeError::UnknownAttribute { tag: t } => assert_eq!(t, tag),
            other => panic!("expected UnknownAttribute for tag {tag}, got {other:?}"),
        }
    }
}

#[test]
fn region_chunk_size_has_its_own_tag() {
    let size = GenlDevlinkAttrs::RegionSize(7);
    let chunk_len = GenlDevlinkAttrs::RegionChunkSize(7);
    assert_eq!(size.kind(), DEVLINK_ATTR_REGION_SIZE);
    assert_eq!(chunk_len.kind(), DEVLINK_ATTR_REGION_CHUNK_LEN);
    assert_ne!(size.kind(), chunk_len.kind());
    let back = GenlDevlinkAttrs::parse(DEVLINK_ATTR_REGION_CHUNK_LEN, &7u64.to_ne_bytes()).unwrap();
    assert_eq!(back, chunk_len);
}

#[test]
fn is_nested_exactly_for_child_lists() {
    assert!(GenlDevlinkAttrs::Fmsg(vec![]).is_nested());
    assert!(GenlDevlinkAttrs::Param(vec![]).is_nested());
    assert!(GenlDevlinkAttrs::RegionSnapshots(vec![]).is_nested());
    assert!(!GenlDevlinkAttrs::ParamValue(3).is_nested());
    assert!(!GenlDevlinkAttrs::BusName(String::new()).is_nested());
    assert!(!GenlDevlinkAttrs::RegionChunkData(vec![]).is_nested());
}

#[test]
fn nested_wire_layout_header_payload_padding() {
    let attr = GenlDevlinkAttrs::Param(vec![GenlDevlinkAttrs::ParamName(String::from("x"))]);
    assert_eq!(attr.value_len(), 8);
    let bytes = encode_attribute(&attr);
    let mut expected = Vec::new();
    expected.extend_from_slice(&6u16.to_ne_bytes());
    expected.extend_from_slice(&DEVLINK_ATTR_PARAM_NAME.to_ne_bytes());
    expected.extend_from_slice(b"x\0");
    expected.extend_from_slice(&[0, 0]);
    assert_eq!(bytes, expected);
    let back = GenlDevlinkAttrs::parse(DEVLINK_ATTR_PARAM, &bytes).unwrap();
    assert_eq!(back, attr);
}

#[test]
fn nested_sets_child_nested_flag_on_wire() {
    let attr = GenlDevlinkAttrs::RegionSnapshots(vec![GenlDevlinkAttrs::RegionSnapshot(vec![])]);
    let bytes = encode_attribute(&attr);
    assert_eq!(bytes.len(), 4);
    let type_field = NativeEndian::read_u16(&bytes[2..4]);
    assert_eq!(type_field & 0x8000, 0x8000);
    assert_eq!(type_field & 0x3fff, 91);
    let back = GenlDevlinkAttrs::parse(DEVLINK_ATTR_REGION_SNAPSHOTS, &bytes).unwrap();
    assert_eq!(back, attr);
}

#[test]
fn nested_three_levels_round_trip() {
    let attr = GenlDevlinkAttrs::Param(vec![
        GenlDevlinkAttrs::ParamName(String::from("fw_load_policy")),
        GenlDevlinkAttrs::Param(vec![
            GenlDevlinkAttrs::ParamValueList(vec![
                GenlDevlinkAttrs::ParamValue(17),
                GenlDevlinkAttrs::ParamValueCmode(2),
            ]),
            GenlDevlinkAttrs::ParamGeneric(true),
        ]),
        GenlDevlinkAttrs::ParamType(11),
    ]);
    let bytes = encode_attribute(&attr);
    assert_eq!(bytes.len(), attr.value_len());
    let back = GenlDevlinkAttrs::parse(DEVLINK_ATTR_PARAM, &bytes).unwrap();
    assert_eq!(back, attr);
}

#[test]
fn nested_empty_list_round_trip() {
    let attr = GenlDevlinkAttrs::RegionSnapshots(vec![]);
    assert_eq!(attr.value_len(), 0);
    let bytes = encode_attribute(&attr);
    assert!(bytes.is_empty());
    let back = GenlDevlinkAttrs::parse(DEVLINK_ATTR_REGION_SNAPSHOTS, &bytes).unwrap();
    assert_eq!(back, attr);
}

#[test]
fn nested_truncated_header_is_invalid_value_with_parent_tag() {
    let err = GenlDevlinkAttrs::parse(DEVLINK_ATTR_PARAM, &[6, 0]).unwrap_err();
    assert!(matches!(
        err,
        DecodeError::InvalidValue { tag: DEVLINK_ATTR_PARAM, .. }
    ));
}

#[test]
fn nested_bad_length_fields_are_invalid_value() {
    let mut short = Vec::new();
    short.extend_from_slice(&3u16.to_ne_bytes());
    short.extend_from_slice(&DEVLINK_ATTR_PARAM_TYPE.to_ne_bytes());
    let err = GenlDevlinkAttrs::parse(DEVLINK_ATTR_PARAM, &short).unwrap_err();
    assert!(matches!(
        err,
        DecodeError::InvalidValue { tag: DEVLINK_ATTR_PARAM, .. }
    ));

    let mut overlong = Vec::new();
    overlong.extend_from_slice(&12u16.to_ne_bytes());
    overlong.extend_from_slice(&DEVLINK_ATTR_PARAM_TYPE.to_ne_bytes());
    overlong.push(1);
    let err = GenlDevlinkAttrs::parse(DEVLINK_ATTR_PARAM, &overlong).unwrap_err();
    assert!(matches!(
        err,
        DecodeError::InvalidValue { tag: DEVLINK_ATTR_PARAM, .. }
    ));
}

#[test]
fn nested_child_failures_propagate_fail_fast() {
    let unknown_child_tag = 199u16;
    let mut bytes = Vec::new();
    bytes.extend_from_slice(&5u16.to_ne_bytes());
    bytes.extend_from_slice(&unknown_child_tag.to_ne_bytes());
    bytes.extend_from_slice(&[7, 0, 0, 0]);
    let err = GenlDevlinkAttrs::parse(DEVLINK_ATTR_PARAM, &bytes).unwrap_err();
    match err {
        DecodeError::UnknownAttribute { tag } => assert_eq!(tag, unknown_child_tag),
        other => panic!("expected the child's UnknownAttribute, got {other:?}"),
    }

    let mut bytes = Vec::new();
    bytes.extend_from_slice(&6u16.to_ne_bytes());
    bytes.extend_from_slice(&DEVLINK_ATTR_PORT_INDEX.to_ne_bytes());
    bytes.extend_from_slice(&[7, 0, 0, 0]);
    let err = GenlDevlinkAttrs::parse(DEVLINK_ATTR_PARAM, &bytes).unwrap_err();
    match err {
        DecodeError::InvalidValue { tag, .. } => assert_eq!(tag, DEVLINK_ATTR_PORT_INDEX),
        other => panic!("expected the child's InvalidValue, got {other:?}"),
    }
}

#[test]
fn nested_unpadded_tail_is_accepted() {
    let mut bytes = Vec::new();
    bytes.extend_from_slice(&6u16.to_ne_bytes());
    bytes.extend_from_slice(&DEVLINK_ATTR_PARAM_NAME.to_ne_bytes());
    bytes.extend_from_slice(b"x\0");
    let back = GenlDevlinkAttrs::parse(DEVLINK_ATTR_PARAM, &bytes).unwrap();
    assert_eq!(
        back,
        GenlDevlinkAttrs::Param(vec![GenlDevlinkAttrs::ParamName(String::from("x"))])
    );
}

#[test]
fn scalar_bytes_agree_with_byteorder_native_writes() {
    let mut expected = [0u8; 4];
    NativeEndian::write_u32(&mut expected, 0x01020304);
    assert_eq!(
        encode_attribute(&GenlDevlinkAttrs::PortIndex(0x01020304)),
        expected.to_vec()
    );
    let mut expected = [0u8; 8];
    NativeEndian::write_u64(&mut expected, 0x0102030405060708);
    assert_eq!(
        encode_attribute(&GenlDevlinkAttrs::RegionSize(0x0102030405060708)),
        expected.to_vec()
    );
    let mut expected = [0u8; 2];
    NativeEndian::write_u16(&mut expected, 0x0102);
    assert_eq!(
        encode_attribute(&GenlDevlinkAttrs::EswitchMode(0x0102)),
        expected.to_vec()
    );
}

#[test]
fn emitted_frames_agree_with_netlink_packet_utils() {
    let attr = GenlDevlinkAttrs::Param(vec![
        GenlDevlinkAttrs::ParamName(String::from("eth0")),
        GenlDevlinkAttrs::PortIndex(42),
    ]);
    let bytes = encode_attribute(&attr);
    let first = NlaBuffer::new_checked(&bytes[..]).unwrap();
    assert_eq!(first.kind(), DEVLINK_ATTR_PARAM_NAME);
    assert_eq!(first.value_length(), 5);
    assert_eq!(parse_string(first.value()).unwrap(), "eth0");
    let first_framed = 4 + ((5 + 3) & !3usize);
    let second = NlaBuffer::new_checked(&bytes[first_framed..]).unwrap();
    assert_eq!(second.kind(), DEVLINK_ATTR_PORT_INDEX);
    assert_eq!(second.value_length(), 4);
    assert_eq!(parse_u32(second.value()).unwrap(), 42);
}

#[test]
fn fmsg_flag_tags_round_trip_by_kind() {
    let start = GenlDevlinkAttrs::FmsgObjNestStart(true);
    assert_eq!(start.kind(), DEVLINK_ATTR_FMSG_OBJ_NEST_START);
    let end = GenlDevlinkAttrs::FmsgNestEnd(false);
    assert_eq!(end.kind(), DEVLINK_ATTR_FMSG_NEST_END);
    let back = GenlDevlinkAttrs::parse(DEVLINK_ATTR_FMSG_OBJ_NEST_START, &[1]).unwrap();
    assert_eq!(back, start);
    let back = GenlDevlinkAttrs::parse(DEVLINK_ATTR_FMSG_NEST_END, &[0]).unwrap();
    assert_eq!(back, end);
}
