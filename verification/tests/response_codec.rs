use rbfrt::bfrt::action::ActionData as ParamSpec;
use rbfrt::bfrt::{
    BFRTAction, BFRTData, BFRTFieldType, BFRTSingleton, BFRTTableKeyObject, BFRTTableObject, TableMatchTypes,
    TableType,
};
use rbfrt::error::RBFRTError;
use rbfrt::protos::bfrt_proto::{
    DataField, DataValue, Entity, KeyField, MatchType, TableData, TableEntry as WireEntry, TableKey,
    TableOperation as WireOperation, TableValue, TargetDevice,
};
use rbfrt::protos::encode::encode_float_bits;
use rbfrt::table::{MatchValue, Request, RequestType};

fn ty(name: &str, width: Option<u32>) -> BFRTFieldType {
    BFRTFieldType::from_name(name, width).unwrap()
}

fn key(id: u32, name: &str, kind: TableMatchTypes, t: BFRTFieldType) -> BFRTTableKeyObject {
    BFRTTableKeyObject::new(id, name.to_string(), None, true, kind, t)
}

fn param(id: u32, name: &str, t: BFRTFieldType) -> ParamSpec {
    ParamSpec::new(id, name.to_string(), None, None, None, Some(t))
}

fn singleton(id: u32, name: &str, t: BFRTFieldType) -> BFRTData {
    BFRTData::new(false, false, BFRTSingleton::new(id, name.to_string(), Some(t), None))
}

fn table() -> BFRTTableObject {
    BFRTTableObject::new(
        "pipe.ingress.forward".to_string(),
        77,
        TableType::MatchActionDirect,
        512,
        None,
        vec![
            key(1, "port", TableMatchTypes::Exact, ty("bytes", Some(9))),
            key(2, "dst", TableMatchTypes::LPM, ty("bytes", Some(32))),
            key(3, "rand", TableMatchTypes::Range, ty("uint16", None)),
            key(4, "flags", TableMatchTypes::Ternary, ty("uint8", None)),
        ],
        Some(vec![
            BFRTAction::new(
                100,
                "do_forward".to_string(),
                None,
                Some(vec![param(1, "e_port", ty("bytes", Some(9))), param(2, "mac", ty("bytes", Some(48)))]),
            ),
            BFRTAction::new(101, "drop".to_string(), None, None),
        ]),
        Some(vec![singleton(9, "$COUNTER", ty("uint64", None))]),
    )
}

fn port_table() -> BFRTTableObject {
    BFRTTableObject::new(
        "$PORT".to_string(),
        5,
        TableType::PortConfigure,
        1,
        None,
        vec![key(1, "$DEV_PORT", TableMatchTypes::Exact, ty("uint32", None))],
        None,
        Some(vec![singleton(2, "$SPEED", ty("string", None)), singleton(3, "$PORT_ENABLE", ty("bool", None))]),
    )
}

fn wire_entry(keys: Vec<KeyField>, action_id: u32, fields: Vec<DataField>) -> Entity {
    Entity::TableEntry(WireEntry {
        table_id: 77,
        data: Some(TableData { action_id, fields }),
        is_default_entry: false,
        entry_tgt: None,
        value: Some(TableValue::Key(TableKey { fields: keys })),
    })
}

fn target() -> TargetDevice {
    TargetDevice { device_id: 0, pipe_id: 0xffff, direction: 0xff, prsr_id: 0xff }
}

#[test]
fn parse_decodes_keys_action_and_data() {
    let entity = wire_entry(
        vec![
            KeyField { field_id: 1, match_type: MatchType::Exact { value: vec![0, 10] } },
            KeyField { field_id: 2, match_type: MatchType::Lpm { value: vec![10, 0, 0, 2], prefix_len: 24 } },
            KeyField { field_id: 3, match_type: MatchType::Range { low: vec![0, 1], high: vec![0, 9] } },
            KeyField { field_id: 4, match_type: MatchType::Ternary { value: vec![7], mask: vec![1] } },
        ],
        100,
        vec![
            DataField { field_id: 1, value: DataValue::Stream(vec![0, 20]) },
            DataField { field_id: 9, value: DataValue::Stream(vec![0, 0, 0, 0, 0, 0, 1, 0]) },
        ],
    );
    let entry = table().parse_read_request(entity, "pipe.ingress.forward").unwrap();
    assert_eq!(entry.table_id, 77);
    assert_eq!(entry.table_name, "pipe.ingress.forward");
    assert!(!entry.default_entry);
    assert_eq!(entry.get_action_name(), "do_forward");
    assert_eq!(entry.match_keys.len(), 4);
    assert_eq!(entry.get_key("port").unwrap(), &MatchValue::ExactValue { bytes: vec![0, 10] });
    assert_eq!(entry.get_key("dst").unwrap(), &MatchValue::LPM { bytes: vec![10, 0, 0, 2], prefix_length: 24 });
    assert_eq!(
        entry.get_key("rand").unwrap(),
        &MatchValue::RangeValue { lower_bytes: vec![0, 1], higher_bytes: vec![0, 9] }
    );
    assert_eq!(entry.get_key("flags").unwrap(), &MatchValue::Ternary { value: vec![7], mask: vec![1] });
    assert!(entry.has_key("port"));
    assert!(!entry.has_key("nope"));
    match entry.get_key("nope") {
        Err(RBFRTError::UnknownKeyName { name, table_name }) => {
            assert_eq!(name, "nope");
            assert_eq!(table_name, "pipe.ingress.forward");
        }
        other => panic!("unexpected: {:?}", other),
    }
    assert_eq!(entry.action_data.len(), 2);
    assert_eq!(entry.get_action_data("e_port").unwrap().get_data(), &vec![0u8, 20]);
    assert_eq!(entry.get_action_data("e_port").unwrap().as_u32(), 20);
    assert_eq!(entry.get_action_data("$COUNTER").unwrap().as_u64(), 256);
    assert_eq!(entry.get_action_data("$COUNTER").unwrap().as_u128(), 256);
    assert!(entry.has_action_data("$COUNTER"));
    assert!(!entry.has_action_data("mac"));
    match entry.get_action_data("mac") {
        Err(RBFRTError::UnknownActionName { name }) => assert_eq!(name, "mac"),
        other => panic!("unexpected: {:?}", other),
    }
}

#[test]
fn parse_optional_match_reads_as_empty_exact() {
    let entity = wire_entry(
        vec![KeyField { field_id: 1, match_type: MatchType::Optional { value: vec![1], is_valid: true } }],
        101,
        vec![],
    );
    let entry = table().parse_read_request(entity, "t").unwrap();
    assert_eq!(entry.get_key("port").unwrap(), &MatchValue::ExactValue { bytes: vec![] });
    assert_eq!(entry.get_action_name(), "drop");
}

#[test]
fn parse_without_data_is_malformed() {
    let entity = Entity::TableEntry(WireEntry {
        table_id: 77,
        data: None,
        is_default_entry: false,
        entry_tgt: None,
        value: None,
    });
    assert_eq!(table().parse_read_request(entity, "t").unwrap_err(), RBFRTError::MalformedReadResult {});
}

#[test]
fn parse_of_other_entity_is_refused() {
    let op = Entity::TableOperation(WireOperation { table_id: 77, table_operations_type: String::new() });
    assert_eq!(table().parse_read_request(op, "t").unwrap_err(), RBFRTError::UnknownReadResult {});
    assert_eq!(table().parse_read_request(Entity::TableUsage, "t").unwrap_err(), RBFRTError::UnknownReadResult {});
    assert_eq!(table().parse_read_request(Entity::Handle, "t").unwrap_err(), RBFRTError::UnknownReadResult {});
}

#[test]
fn parse_errors() {
    let unknown_key = wire_entry(vec![KeyField { field_id: 8, match_type: MatchType::Exact { value: vec![] } }], 100, vec![]);
    assert_eq!(
        table().parse_read_request(unknown_key, "t").unwrap_err(),
        RBFRTError::UnknownKeyId { id: 8, table_name: "pipe.ingress.forward".to_string() }
    );
    let unknown_action = wire_entry(vec![], 5, vec![]);
    assert_eq!(
        table().parse_read_request(unknown_action, "t").unwrap_err(),
        RBFRTError::UnknownActionId { action_id: 5 }
    );
    let unknown_field = wire_entry(vec![], 100, vec![DataField { field_id: 44, value: DataValue::Stream(vec![]) }]);
    assert_eq!(
        table().parse_read_request(unknown_field, "t").unwrap_err(),
        RBFRTError::UnknownActionDataId { id: 44, action_name: "do_forward".to_string() }
    );
    for value in [DataValue::BoolArrVal(vec![true]), DataValue::ContainerArrVal, DataValue::StrArrVal(vec![])] {
        let e = wire_entry(vec![], 100, vec![DataField { field_id: 1, value }]);
        assert_eq!(
            table().parse_read_request(e, "t").unwrap_err(),
            RBFRTError::UnsupportedType { name: "e_port".to_string() }
        );
    }
}

#[test]
fn parse_handle_and_missing_key_give_no_match_keys() {
    let entity = Entity::TableEntry(WireEntry {
        table_id: 77,
        data: Some(TableData { action_id: 101, fields: vec![] }),
        is_default_entry: true,
        entry_tgt: None,
        value: Some(TableValue::HandleId(3)),
    });
    let entry = table().parse_read_request(entity, "t").unwrap();
    assert!(entry.match_keys.is_empty());
    assert!(entry.default_entry);
}

#[test]
fn parse_of_table_without_actions_uses_marker() {
    let entity = Entity::TableEntry(WireEntry {
        table_id: 5,
        data: Some(TableData {
            action_id: 0,
            fields: vec![
                DataField { field_id: 2, value: DataValue::StrVal("BF_SPEED_10G".to_string()) },
                DataField { field_id: 3, value: DataValue::BoolVal(true) },
            ],
        }),
        is_default_entry: false,
        entry_tgt: None,
        value: Some(TableValue::Key(TableKey {
            fields: vec![KeyField { field_id: 1, match_type: MatchType::Exact { value: vec![0, 0, 0, 1] } }],
        })),
    });
    let entry = port_table().parse_read_request(entity, "$PORT").unwrap();
    assert_eq!(entry.action, "NoAction");
    let mut speed = vec![0x0au8, 12];
    speed.extend_from_slice(b"BF_SPEED_10G");
    assert_eq!(entry.get_action_data("$SPEED").unwrap().get_data(), &speed);
    assert_eq!(entry.get_action_data("$PORT_ENABLE").unwrap().get_data(), &vec![8u8, 1]);
}

#[test]
fn payloads_are_serialized_as_prost_does() {
    let cases: Vec<(DataValue, Vec<u8>)> = vec![
        (DataValue::Stream(vec![1, 2, 3]), vec![1, 2, 3]),
        (DataValue::StrVal(String::new()), prost::Message::encode_to_vec(&String::new())),
        (DataValue::StrVal("héllo".to_string()), prost::Message::encode_to_vec(&"héllo".to_string())),
        (DataValue::BoolVal(true), prost::Message::encode_to_vec(&true)),
        (DataValue::BoolVal(false), prost::Message::encode_to_vec(&false)),
        (DataValue::FloatVal(1.5f32.to_bits()), prost::Message::encode_to_vec(&1.5f32)),
        (DataValue::FloatVal(0), prost::Message::encode_to_vec(&0.0f32)),
        (DataValue::IntArrVal(vec![1, 0x01020304]), vec![0, 0, 0, 1, 1, 2, 3, 4]),
    ];
    for (value, expected) in cases {
        let e = wire_entry(vec![], 100, vec![DataField { field_id: 1, value }]);
        let entry = table().parse_read_request(e, "t").unwrap();
        assert_eq!(entry.action_data[0].get_key(), "e_port");
        assert_eq!(entry.action_data[0].get_data(), &expected);
    }
}

#[test]
fn bool_and_string_messages_have_known_bytes() {
    let e = wire_entry(
        vec![],
        100,
        vec![
            DataField { field_id: 1, value: DataValue::BoolVal(true) },
            DataField { field_id: 1, value: DataValue::BoolVal(false) },
            DataField { field_id: 1, value: DataValue::StrVal("ab".to_string()) },
        ],
    );
    let entry = table().parse_read_request(e, "t").unwrap();
    assert_eq!(entry.action_data[0].get_data(), &vec![8u8, 1]);
    assert_eq!(entry.action_data[1].get_data(), &Vec::<u8>::new());
    assert_eq!(entry.action_data[2].get_data(), &vec![0x0au8, 2, 97, 98]);
}

#[test]
fn float_bits_are_encoded_as_prost_does() {
    let values = [0.0f32, -0.0, 1.0, -1.0, 1.5, 3.4e38, 1e-40, -2.25];
    for v in values {
        assert_eq!(encode_float_bits(v.to_bits()), prost::Message::encode_to_vec(&v));
    }
    let odd = [f32::NAN, f32::INFINITY, f32::NEG_INFINITY, f32::MIN_POSITIVE];
    for v in odd {
        assert_eq!(encode_float_bits(v.to_bits()), prost::Message::encode_to_vec(&v));
    }
    assert_eq!(encode_float_bits(1.0f32.to_bits()), vec![13, 0, 0, 0x80, 0x3f]);
}

#[test]
fn written_entry_reads_back_canonical() {
    let req = Request::new("ingress.forward")
        .match_key("port", MatchValue::exact(10u32))
        .match_key("dst", MatchValue::lpm(vec![10u8, 0, 0, 2], 32))
        .match_key("rand", MatchValue::range(vec![0u8, 0, 1], vec![2u8]))
        .match_key("flags", MatchValue::ternary(vec![0u8, 3], vec![0u8, 0, 1]))
        .action("do_forward")
        .action_data("e_port", 20u32)
        .action_data("mac", vec![1u8, 2, 3])
        .action_data("$COUNTER", 9u8)
        .default(true)
        .request_type(RequestType::Write);
    let update = table().build_write_request(&req, &target()).unwrap();
    let entry = table().parse_read_request(update.entity, "pipe.ingress.forward").unwrap();
    assert_eq!(entry.table_id, 77);
    assert!(entry.default_entry);
    assert_eq!(entry.action, "do_forward");
    assert_eq!(entry.match_keys.len(), 4);
    assert_eq!(entry.get_key("port").unwrap(), &MatchValue::ExactValue { bytes: vec![0, 10] });
    assert_eq!(entry.get_key("dst").unwrap(), &MatchValue::LPM { bytes: vec![10, 0, 0, 2], prefix_length: 32 });
    assert_eq!(
        entry.get_key("rand").unwrap(),
        &MatchValue::RangeValue { lower_bytes: vec![0, 1], higher_bytes: vec![0, 2] }
    );
    assert_eq!(entry.get_key("flags").unwrap(), &MatchValue::Ternary { value: vec![3], mask: vec![1] });
    assert_eq!(entry.action_data.len(), 3);
    assert_eq!(entry.action_data[0].get_key(), "e_port");
    assert_eq!(entry.action_data[0].get_data(), &vec![0u8, 20]);
    assert_eq!(entry.action_data[1].get_key(), "mac");
    assert_eq!(entry.action_data[1].get_data(), &vec![0u8, 0, 0, 1, 2, 3]);
    assert_eq!(entry.action_data[2].get_key(), "$COUNTER");
    assert_eq!(entry.action_data[2].get_data(), &vec![0u8, 0, 0, 0, 0, 0, 0, 9]);
}
