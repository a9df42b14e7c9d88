use rbfrt::bfrt::action::{default_id, default_name, ActionData};
use rbfrt::bfrt::{
    BFRTAction, BFRTData, BFRTFieldType, BFRTInfo, BFRTSingleton, BFRTTableKeyObject, BFRTTableObject, FieldKind,
    LearnFilterField, LearnFilterObject, TableMatchTypes, TableType,
};
use rbfrt::codec::UNCONSTRAINED_WIDTH;
use rbfrt::error::RBFRTError;

fn ty(name: &str, width: Option<u32>) -> BFRTFieldType {
    BFRTFieldType::from_name(name, width).unwrap()
}

fn param(id: u32, name: &str, t: BFRTFieldType) -> ActionData {
    ActionData::new(id, name.to_string(), None, Some(true), Some(false), Some(t))
}

fn singleton(id: u32, name: &str, t: BFRTFieldType) -> BFRTData {
    BFRTData::new(false, false, BFRTSingleton::new(id, name.to_string(), Some(t), None))
}

fn forward_table(name: &str, id: u32) -> BFRTTableObject {
    BFRTTableObject::new(
        name.to_string(),
        id,
        TableType::MatchActionDirect,
        1024,
        Some(false),
        vec![
            BFRTTableKeyObject::new(
                1,
                "ig_intr_md.ingress_port".to_string(),
                None,
                true,
                TableMatchTypes::Exact,
                ty("bytes", Some(9)),
            ),
            BFRTTableKeyObject::new(
                2,
                "hdr.ipv4.dst_addr".to_string(),
                None,
                true,
                TableMatchTypes::LPM,
                ty("bytes", Some(32)),
            ),
        ],
        Some(vec![
            BFRTAction::new(100, "ingress.do_forward".to_string(), None, Some(vec![param(1, "e_port", ty("bytes", Some(9)))])),
            BFRTAction::new(101, "ingress.drop".to_string(), None, None),
        ]),
        Some(vec![singleton(9, "$COUNTER_SPEC_PKTS", ty("uint64", None))]),
    )
}

fn register_table(name: &str, id: u32) -> BFRTTableObject {
    BFRTTableObject::new(
        name.to_string(),
        id,
        TableType::Register,
        16,
        None,
        vec![BFRTTableKeyObject::new(
            65557,
            "$REGISTER_INDEX".to_string(),
            None,
            true,
            TableMatchTypes::Exact,
            ty("uint32", None),
        )],
        None,
        Some(vec![singleton(7, "reg.f1", ty("uint32", None))]),
    )
}

#[test]
fn field_type_widths() {
    assert_eq!(ty("uint64", None).get_width(), 64);
    assert_eq!(ty("uint32", None).get_width(), 32);
    assert_eq!(ty("uint16", None).get_width(), 16);
    assert_eq!(ty("uint8", None).get_width(), 8);
    assert_eq!(ty("bytes", Some(48)).get_width(), 48);
    assert_eq!(ty("bool", None).get_width(), 1);
    assert_eq!(ty("string", None).get_width(), UNCONSTRAINED_WIDTH);
    assert_eq!(ty("uint32", Some(7)).get_width(), 32);
}

#[test]
fn field_type_names_are_closed() {
    assert_eq!(ty("bool", None).get_kind(), FieldKind::Bool);
    assert_eq!(ty("string", None).get_kind(), FieldKind::Text);
    match BFRTFieldType::from_name("float", None) {
        Err(RBFRTError::UnsupportedType { name }) => assert_eq!(name, "float"),
        other => panic!("unexpected: {:?}", other),
    }
    match BFRTFieldType::from_name("bytes", None) {
        Err(RBFRTError::UnsupportedType { name }) => assert_eq!(name, "bytes"),
        other => panic!("unexpected: {:?}", other),
    }
    assert!(BFRTFieldType::new(FieldKind::Bytes, None).is_none());
    assert!(BFRTFieldType::new(FieldKind::Bytes, Some(3)).is_some());
    assert!(BFRTFieldType::new(FieldKind::Uint8, None).is_some());
}

#[test]
fn serde_defaults() {
    assert_eq!(default_id(), 0);
    assert_eq!(default_name(), "Unknown name");
}

#[test]
fn action_lookups() {
    let a = BFRTAction::new(
        5,
        "act".to_string(),
        None,
        Some(vec![param(1, "x", ty("uint8", None)), param(2, "y", ty("bool", None)), param(1, "z", ty("uint16", None))]),
    );
    assert_eq!(a.id(), 5);
    assert_eq!(a.name(), "act");
    assert_eq!(a.get_action_data_by_id(1).unwrap().name(), "x");
    assert_eq!(a.get_action_data_by_id(2).unwrap().name(), "y");
    assert_eq!(a.get_action_data_by_name("z").unwrap().id(), 1);
    assert_eq!(a.get_action_data_type("y").unwrap().get_kind(), FieldKind::Bool);
    match a.get_action_data_by_id(3) {
        Err(RBFRTError::UnknownActionDataId { id, action_name }) => {
            assert_eq!(id, 3);
            assert_eq!(action_name, "act");
        }
        other => panic!("unexpected: {:?}", other),
    }
    match a.get_action_data_by_name("w") {
        Err(RBFRTError::UnknownActionDataName { name, action_name }) => {
            assert_eq!(name, "w");
            assert_eq!(action_name, "act");
        }
        other => panic!("unexpected: {:?}", other),
    }
    assert!(matches!(a.get_action_data_type("w"), Err(RBFRTError::UnknownActionDataName { .. })));
    let bare = BFRTAction::new(6, "bare".to_string(), None, None);
    assert!(matches!(bare.get_action_data_by_id(1), Err(RBFRTError::UnknownActionDataId { .. })));
    let untyped = BFRTAction::new(
        7,
        "untyped".to_string(),
        None,
        Some(vec![ActionData::new(1, "p".to_string(), None, None, None, None)]),
    );
    match untyped.get_action_data_type("p") {
        Err(RBFRTError::UnsupportedType { name }) => assert_eq!(name, "p"),
        other => panic!("unexpected: {:?}", other),
    }
}

#[test]
fn table_lookups() {
    let t = forward_table("pipe.ingress.exact_forward", 11);
    assert_eq!(t.name(), "pipe.ingress.exact_forward");
    assert_eq!(t.id(), 11);
    assert_eq!(*t.get_table_type(), TableType::MatchActionDirect);
    assert_eq!(t.get_key_by_name("hdr.ipv4.dst_addr").unwrap().id(), 2);
    assert_eq!(t.get_key_by_id(1).unwrap().name(), "ig_intr_md.ingress_port");
    assert_eq!(t.get_key_by_id(1).unwrap().field_type().get_width(), 9);
    assert_eq!(t.get_key_by_id(2).unwrap().match_type(), TableMatchTypes::LPM);
    assert_eq!(t.get_action_by_name("ingress.drop").unwrap().id(), 101);
    assert_eq!(t.get_action_by_id(100).unwrap().name(), "ingress.do_forward");
    assert_eq!(t.get_singleton_by_name("$COUNTER_SPEC_PKTS").unwrap().id(), 9);
    assert_eq!(t.get_singleton_by_id(9).unwrap().name(), "$COUNTER_SPEC_PKTS");
    assert_eq!(t.get_singleton_by_id(9).unwrap().get_type().unwrap().get_width(), 64);
    match t.get_key_by_id(3) {
        Err(RBFRTError::UnknownKeyId { id, table_name }) => {
            assert_eq!(id, 3);
            assert_eq!(table_name, "pipe.ingress.exact_forward");
        }
        other => panic!("unexpected: {:?}", other),
    }
    match t.get_key_by_name("nope") {
        Err(RBFRTError::UnknownKeyName { name, table_name }) => {
            assert_eq!(name, "nope");
            assert_eq!(table_name, "pipe.ingress.exact_forward");
        }
        other => panic!("unexpected: {:?}", other),
    }
    match t.get_action_by_id(1) {
        Err(RBFRTError::UnknownActionId { action_id }) => assert_eq!(action_id, 1),
        other => panic!("unexpected: {:?}", other),
    }
    match t.get_action_by_name("a") {
        Err(RBFRTError::UnknownActionName { name }) => assert_eq!(name, "a"),
        other => panic!("unexpected: {:?}", other),
    }
    match t.get_singleton_by_name("s") {
        Err(RBFRTError::UnknownSingletonName { name }) => assert_eq!(name, "s"),
        other => panic!("unexpected: {:?}", other),
    }
    match t.get_singleton_by_id(1) {
        Err(RBFRTError::UnknownSingletonId { id }) => assert_eq!(id, 1),
        other => panic!("unexpected: {:?}", other),
    }
}

#[test]
fn table_without_actions_reports_not_found() {
    let t = register_table("reg", 3);
    assert!(matches!(t.get_action_by_id(0), Err(RBFRTError::UnknownActionId { action_id: 0 })));
    assert!(matches!(t.get_action_by_name("a"), Err(RBFRTError::UnknownActionName { .. })));
}

#[test]
fn action_param_name_prefers_parameter() {
    let t = forward_table("t", 1);
    assert_eq!(t.get_action_param_name(100, 1).unwrap(), "e_port");
}

#[test]
fn action_param_name_falls_back_to_singleton() {
    let t = forward_table("t", 1);
    assert_eq!(t.get_action_param_name(100, 9).unwrap(), "$COUNTER_SPEC_PKTS");
    assert_eq!(t.get_action_param_name(101, 9).unwrap(), "$COUNTER_SPEC_PKTS");
}

#[test]
fn action_param_name_errors() {
    let t = forward_table("t", 1);
    match t.get_action_param_name(100, 42) {
        Err(RBFRTError::UnknownActionDataId { id, action_name }) => {
            assert_eq!(id, 42);
            assert_eq!(action_name, "ingress.do_forward");
        }
        other => panic!("unexpected: {:?}", other),
    }
    assert!(matches!(t.get_action_param_name(7, 9), Err(RBFRTError::UnknownActionId { action_id: 7 })));
}

#[test]
fn action_param_name_of_other_tables_is_singleton_only() {
    let t = register_table("reg", 3);
    assert_eq!(t.get_action_param_name(0, 7).unwrap(), "reg.f1");
    assert_eq!(t.get_action_param_name(12345, 7).unwrap(), "reg.f1");
    assert!(matches!(t.get_action_param_name(0, 8), Err(RBFRTError::UnknownSingletonId { id: 8 })));
}

#[test]
fn catalog_lookups() {
    let mut info = BFRTInfo::new(
        vec![forward_table("pipe.ingress.exact_forward", 11), register_table("ingress.reg", 12)],
        Some(vec![LearnFilterObject {
            name: "digest".to_string(),
            id: 7,
            fields: vec![LearnFilterField::new(1, "a".to_string())],
        }]),
    );
    assert_eq!(info.table_get("ingress.exact_forward").unwrap().id(), 11);
    assert_eq!(info.table_get("pipe.ingress.exact_forward").unwrap().id(), 11);
    assert_eq!(info.table_get("ingress.reg").unwrap().id(), 12);
    assert_eq!(info.table_get_by_id(12).unwrap().name(), "ingress.reg");
    match info.table_get("exact_forward") {
        Err(RBFRTError::UnknownTable { table_name }) => assert_eq!(table_name, "exact_forward"),
        other => panic!("unexpected: {:?}", other),
    }
    match info.table_get_by_id(13) {
        Err(RBFRTError::UnknownTableId { table_id }) => assert_eq!(table_id, 13),
        other => panic!("unexpected: {:?}", other),
    }
    assert_eq!(info.learn_filter_get(7).unwrap().name, "digest");
    match info.learn_filter_get(8) {
        Err(RBFRTError::UnknownLearnFilter { filter_id }) => assert_eq!(filter_id, 8),
        other => panic!("unexpected: {:?}", other),
    }
    info.add_table(register_table("$PORT", 99));
    assert_eq!(info.table_get("$PORT").unwrap().id(), 99);
    let tables = info.tables();
    assert_eq!(tables.len(), 3);
    assert_eq!(tables[2].name(), "$PORT");
}

#[test]
fn catalog_without_learn_filters() {
    let info = BFRTInfo::new(vec![], None);
    assert!(matches!(info.learn_filter_get(1), Err(RBFRTError::UnknownLearnFilter { filter_id: 1 })));
    assert!(matches!(info.table_get("t"), Err(RBFRTError::UnknownTable { .. })));
}

#[test]
fn table_name_to_id_and_back() {
    let info = BFRTInfo::new(
        vec![forward_table("pipe.a", 1), forward_table("b", 2), forward_table("pipe.c", 3), register_table("c", 4)],
        None,
    );
    let names = ["pipe.a", "b", "pipe.c", "c"];
    for name in names {
        let found = info.table_get(name).unwrap();
        let again = info.table_get_by_id(found.id()).unwrap();
        assert_eq!(again.id(), found.id());
        assert!(again.name() == name || again.name() == format!("pipe.{}", name));
    }
    // the scoped table stands first and answers to the bare name too
    assert_eq!(info.table_get("c").unwrap().id(), 3);
}

#[test]
fn learn_filter_field_names() {
    let filter = LearnFilterObject {
        name: "digest".to_string(),
        id: 7,
        fields: vec![LearnFilterField::new(1, "a".to_string()), LearnFilterField::new(2, "b".to_string())],
    };
    assert_eq!(filter.get_data_field_name_by_id(2).unwrap(), "b");
    match filter.get_data_field_name_by_id(3) {
        Err(RBFRTError::UnknownLearnFilterField { field_id }) => assert_eq!(field_id, 3),
        other => panic!("unexpected: {:?}", other),
    }
}
