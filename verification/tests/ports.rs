use rbfrt::error::RBFRTError;
use rbfrt::str_map::StrMap;
use rbfrt::table::{ActionData, MatchValue, TableEntry};
use rbfrt::util::decimal::{decimal_string, hex_string, parse_number};
use rbfrt::util::port_manager::{graphic_bytes, parse_port_record, port_name_string};
use rbfrt::util::{AutoNegotiation, Loopback, Port, PortManager, PrettyPrinter, Speed, FEC};

fn entry(keys: Vec<(&str, MatchValue)>, data: Vec<(&str, Vec<u8>)>) -> TableEntry {
    let mut match_keys = StrMap::new();
    for (k, v) in keys {
        match_keys = match_keys.insert(k.to_string(), v);
    }
    TableEntry {
        table_id: 1,
        table_name: "$PORT_STR_INFO".to_string(),
        match_keys,
        default_entry: false,
        action: "NoAction".to_string(),
        action_data: data.into_iter().map(|(k, v)| ActionData::new(k, v)).collect(),
    }
}

fn name_entry(name: &str, dev_port: u32) -> TableEntry {
    entry(vec![("$PORT_NAME", MatchValue::exact(name))], vec![("$DEV_PORT", dev_port.to_be_bytes().to_vec())])
}

fn manager() -> PortManager {
    PortManager::from_entries(&vec![name_entry("1/0", 128), name_entry("2/3", 139), name_entry("33/0", 64)]).unwrap()
}

fn text(s: &str) -> Vec<u8> {
    prost::Message::encode_to_vec(&s.to_string())
}

fn port_entry(dev_port: u32) -> TableEntry {
    entry(
        vec![("$DEV_PORT", MatchValue::exact(dev_port))],
        vec![
            ("$SPEED", text("BF_SPEED_100G")),
            ("$AUTO_NEGOTIATION", text("PM_AN_FORCE_DISABLE")),
            ("$FEC", text("BF_FEC_TYP_REED_SOLOMON")),
            ("$PORT_ENABLE", prost::Message::encode_to_vec(&true)),
            ("$PORT_UP", prost::Message::encode_to_vec(&false)),
            ("$LOOPBACK_MODE", text("BF_LPBK_MAC_NEAR")),
        ],
    )
}

#[test]
fn numbers_in_decimal_and_hex() {
    assert_eq!(decimal_string(0), "0");
    assert_eq!(decimal_string(9), "9");
    assert_eq!(decimal_string(10), "10");
    assert_eq!(decimal_string(4294967295), "4294967295");
    assert_eq!(decimal_string(u128::MAX), u128::MAX.to_string());
    assert_eq!(hex_string(0), "0");
    assert_eq!(hex_string(10), "a");
    assert_eq!(hex_string(0x1f), "1f");
    assert_eq!(hex_string(255), "ff");
}

#[test]
fn numbers_from_decimal() {
    let b = b"12/+7/x/300/".to_vec();
    assert_eq!(parse_number(&b, 0, 2, 255), Some(12));
    assert_eq!(parse_number(&b, 3, 5, 255), Some(7));
    assert_eq!(parse_number(&b, 6, 7, 255), None);
    assert_eq!(parse_number(&b, 8, 11, 255), None);
    assert_eq!(parse_number(&b, 8, 11, 300), Some(300));
    assert_eq!(parse_number(&b, 2, 2, 255), None);
    assert_eq!(parse_number(&b"+".to_vec(), 0, 1, 255), None);
    assert_eq!(parse_number(&b"007".to_vec(), 0, 3, 7), Some(7));
    assert_eq!(parse_number(&b"4294967296".to_vec(), 0, 10, 0xffff_ffff), None);
    assert_eq!(parse_number(&b"4294967295".to_vec(), 0, 10, 0xffff_ffff), Some(4294967295));
    assert_eq!(parse_number(&b"99999999999999999999999".to_vec(), 0, 23, 0xffff_ffff), None);
}

#[test]
fn port_names() {
    assert_eq!(port_name_string(1, 0), "1/0");
    assert_eq!(port_name_string(33, 3), "33/3");
    assert_eq!(graphic_bytes(&vec![0x0a, 0x0d, b'B', b'F', b' ', 0x7f, b'~', b'!']), b"BF~!".to_vec());
}

#[test]
fn port_enum_names() {
    assert_eq!(Speed::BF_SPEED_400G.name(), "BF_SPEED_400G");
    assert_eq!(Speed::from_name("BF_SPEED_25G"), Some(Speed::BF_SPEED_25G));
    assert_eq!(Speed::from_name("BF_SPEED_2G"), None);
    assert_eq!(AutoNegotiation::from_name("PM_AN_FORCE_ENABLE"), Some(AutoNegotiation::PM_AN_FORCE_ENABLE));
    assert_eq!(AutoNegotiation::PM_AN_DEFAULT.name(), "PM_AN_DEFAULT");
    assert_eq!(FEC::from_name("BF_FEC_TYP_FC"), Some(FEC::BF_FEC_TYP_FC));
    assert_eq!(FEC::from_name(""), None);
    assert_eq!(Loopback::from_name("BF_LPBK_MAC_FAR"), Some(Loopback::BF_LPBK_MAC_FAR));
    assert_eq!(Loopback::BF_LPBK_NONE.name(), "BF_LPBK_NONE");
    for s in [Speed::BF_SPEED_1G, Speed::BF_SPEED_10G, Speed::BF_SPEED_20G, Speed::BF_SPEED_40G, Speed::BF_SPEED_50G, Speed::BF_SPEED_100G] {
        assert_eq!(Speed::from_name(s.name()), Some(s));
        assert_eq!(format!("{:?}", s), s.name());
    }
}

#[test]
fn port_builder() {
    let p = Port::new(1, 2);
    assert_eq!(p.get_frontpanel_port(), (1, 2));
    assert_eq!(p.get_dev_port(), None);
    assert_eq!(*p.get_speed(), Speed::BF_SPEED_1G);
    assert_eq!(*p.get_auto_negotiation(), AutoNegotiation::PM_AN_DEFAULT);
    assert_eq!(*p.get_fec(), FEC::BF_FEC_TYP_NONE);
    assert_eq!(*p.get_loopback(), Loopback::BF_LPBK_NONE);
    assert!(p.get_enabled());
    assert!(!p.get_status());
    let p = p
        .speed(Speed::BF_SPEED_100G)
        .fec(FEC::BF_FEC_TYP_FC)
        .auto_negotiation(AutoNegotiation::PM_AN_FORCE_ENABLE)
        .loopback(Loopback::BF_LPBK_MAC_NEAR)
        .disable();
    assert_eq!(*p.get_speed(), Speed::BF_SPEED_100G);
    assert_eq!(*p.get_fec(), FEC::BF_FEC_TYP_FC);
    assert_eq!(*p.get_auto_negotiation(), AutoNegotiation::PM_AN_FORCE_ENABLE);
    assert_eq!(*p.get_loopback(), Loopback::BF_LPBK_MAC_NEAR);
    assert!(!p.get_enabled());
    assert!(p.enable().get_enabled());
    assert_eq!(p.get_frontpanel_port(), (1, 2));
}

#[test]
fn port_records() {
    assert_eq!(parse_port_record(&name_entry("1/0", 128)).unwrap(), Some(("1/0".to_string(), 128, 1, 0)));
    assert_eq!(parse_port_record(&name_entry("10", 128)).unwrap(), None);
    assert_eq!(parse_port_record(&name_entry("1/2/3", 128)).unwrap(), None);
    assert!(matches!(parse_port_record(&name_entry("a/0", 1)), Err(RBFRTError::GenericError { .. })));
    assert!(matches!(parse_port_record(&name_entry("1/256", 1)), Err(RBFRTError::GenericError { .. })));
    assert!(matches!(parse_port_record(&name_entry("/", 1)), Err(RBFRTError::GenericError { .. })));
    let long = entry(vec![("$PORT_NAME", MatchValue::exact("1/0"))], vec![("$DEV_PORT", vec![0, 0, 1, 2, 9, 9])]);
    assert_eq!(parse_port_record(&long).unwrap(), Some(("1/0".to_string(), 258, 1, 0)));
    let short = entry(vec![("$PORT_NAME", MatchValue::exact("1/0"))], vec![("$DEV_PORT", vec![1, 2])]);
    assert!(matches!(parse_port_record(&short), Err(RBFRTError::ByteConversionError { .. })));
    let no_data = entry(vec![("$PORT_NAME", MatchValue::exact("1/0"))], vec![]);
    assert_eq!(
        parse_port_record(&no_data).unwrap_err(),
        RBFRTError::UnknownActionName { name: "$DEV_PORT".to_string() }
    );
    let no_key = entry(vec![], vec![("$DEV_PORT", vec![0, 0, 0, 1])]);
    assert!(matches!(parse_port_record(&no_key), Err(RBFRTError::UnknownKeyName { .. })));
    let range = entry(vec![("$PORT_NAME", MatchValue::range(1u8, 2u8))], vec![("$DEV_PORT", vec![0, 0, 0, 1])]);
    assert!(matches!(parse_port_record(&range), Err(RBFRTError::GenericError { .. })));
    let bad = entry(vec![("$PORT_NAME", MatchValue::exact(vec![0xffu8, b'/']))], vec![("$DEV_PORT", vec![0, 0, 0, 1])]);
    assert!(matches!(parse_port_record(&bad), Err(RBFRTError::ByteConversionError { .. })));
}

#[test]
fn port_manager_maps_both_ways() {
    let pm = manager();
    assert_eq!(pm.dev_port(1, 0).unwrap(), 128);
    assert_eq!(pm.dev_port(2, 3).unwrap(), 139);
    assert_eq!(pm.frontpanel_port(64).unwrap(), (33, 0));
    assert_eq!(pm.dev_port(2, 0).unwrap_err(), RBFRTError::PortNotFound { name: "2/0".to_string() });
    assert_eq!(pm.frontpanel_port(65).unwrap_err(), RBFRTError::PortNotFound { name: "65".to_string() });
    let empty = PortManager::empty();
    assert!(empty.dev_port(1, 0).is_err());
    assert!(PortManager::from_entries(&vec![name_entry("1/0", 1), name_entry("x/0", 2)]).is_err());
    let skipping = PortManager::from_entries(&vec![name_entry("cpu", 1), name_entry("3/1", 2)]).unwrap();
    assert_eq!(skipping.dev_port(3, 1).unwrap(), 2);
}

#[test]
fn port_requests() {
    let pm = manager();
    let port = Port::new(2, 3).speed(Speed::BF_SPEED_100G).fec(FEC::BF_FEC_TYP_NONE).loopback(Loopback::BF_LPBK_MAC_FAR);
    let req = pm.add_port_request(&port).unwrap();
    assert_eq!(req.get_table_name(), "$PORT");
    assert_eq!(req.get_match_keys().len(), 1);
    assert_eq!(req.get_match_keys().get("$DEV_PORT"), Some(&MatchValue::ExactValue { bytes: vec![0, 0, 0, 139] }));
    let data: Vec<(&str, Vec<u8>)> = req.get_action_data().iter().map(|d| (d.get_key(), d.get_data().clone())).collect();
    assert_eq!(
        data,
        vec![
            ("$SPEED", b"BF_SPEED_100G".to_vec()),
            ("$FEC", b"BF_FEC_TYP_NONE".to_vec()),
            ("$PORT_ENABLE", vec![1]),
            ("$AUTO_NEGOTIATION", b"PM_AN_DEFAULT".to_vec()),
            ("$LOOPBACK_MODE", b"BF_LPBK_MAC_FAR".to_vec()),
        ]
    );
    let del = pm.port_request(&port).unwrap();
    assert_eq!(del.get_action_data().len(), 0);
    assert_eq!(del.get_match_keys().len(), 1);
    let off = pm.switch_port_request(&port, false).unwrap();
    assert_eq!(off.get_action_data().len(), 1);
    assert_eq!(off.get_action_data()[0], ActionData::new("$PORT_ENABLE", vec![0u8]));
    let on = pm.switch_port_request(&port, true).unwrap();
    assert_eq!(on.get_action_data()[0], ActionData::new("$PORT_ENABLE", vec![1u8]));
    assert_eq!(
        pm.add_port_request(&Port::new(9, 9)).unwrap_err(),
        RBFRTError::PortNotFound { name: "9/9".to_string() }
    );
}

#[test]
fn ports_are_read_from_entries() {
    let pm = manager();
    let ports = pm.parse_ports(&vec![port_entry(128), port_entry(64)]).unwrap();
    assert_eq!(ports.len(), 2);
    assert_eq!(ports[0].get_frontpanel_port(), (1, 0));
    assert_eq!(ports[0].get_dev_port(), Some(128));
    assert_eq!(*ports[0].get_speed(), Speed::BF_SPEED_100G);
    assert_eq!(*ports[0].get_auto_negotiation(), AutoNegotiation::PM_AN_FORCE_DISABLE);
    assert_eq!(*ports[0].get_fec(), FEC::BF_FEC_TYP_REED_SOLOMON);
    assert_eq!(*ports[0].get_loopback(), Loopback::BF_LPBK_MAC_NEAR);
    assert!(ports[0].get_enabled());
    assert!(!ports[0].get_status());
    assert_eq!(ports[1].get_frontpanel_port(), (33, 0));
    assert_eq!(pm.parse_ports(&vec![]).unwrap().len(), 0);
}

#[test]
fn port_entry_errors() {
    let pm = manager();
    assert_eq!(pm.parse_port(&port_entry(1)).unwrap_err(), RBFRTError::PortNotFound { name: "1".to_string() });
    let mut e = port_entry(128);
    e.action_data.remove(0);
    assert_eq!(pm.parse_port(&e).unwrap_err(), RBFRTError::UnknownActionName { name: "$SPEED".to_string() });
    let mut e = port_entry(128);
    e.action_data[2] = ActionData::new("$FEC", text("BF_FEC_TYP_XX"));
    assert!(matches!(pm.parse_port(&e), Err(RBFRTError::GenericError { .. })));
    let mut e = port_entry(128);
    e.action_data[5] = ActionData::new("$LOOPBACK_MODE", vec![0xffu8]);
    assert!(matches!(pm.parse_port(&e), Err(RBFRTError::ByteConversionError { .. })));
    let wide = entry(vec![("$DEV_PORT", MatchValue::exact(vec![1u8, 0, 0, 0, 0]))], vec![]);
    assert!(matches!(pm.parse_port(&wide), Err(RBFRTError::ConvertError { .. })));
    let none = entry(vec![], vec![]);
    assert!(matches!(pm.parse_port(&none), Err(RBFRTError::UnknownKeyName { .. })));
    assert!(pm.parse_ports(&vec![port_entry(128), port_entry(1)]).is_err());
}

#[test]
fn pretty_printer_flag() {
    let p = PrettyPrinter::new();
    assert!(p.get_infer_address_type_flag());
    assert!(!p.infer_address_type_flag(false).get_infer_address_type_flag());
}

#[test]
fn pretty_printer_texts() {
    let p = PrettyPrinter::new();
    assert_eq!(p.convert_data_to_string("port", &vec![0, 0, 1, 0]), "256");
    assert_eq!(p.convert_data_to_string("port", &vec![]), "0");
    assert_eq!(p.convert_data_to_string("x", &vec![1, 0, 0, 0, 0]), (1u64 << 32).to_string());
    assert_eq!(p.convert_data_to_string("x", &vec![255; 16]), u128::MAX.to_string());
    let long: Vec<u8> = (1..=17).collect();
    assert_eq!(p.convert_data_to_string("x", &long), format!("{:?}", long));
    assert_eq!(p.convert_data_to_string("hdr.ipv4.dst_addr", &vec![10, 0, 0, 2]), "10.0.0.2");
    assert_eq!(p.convert_data_to_string("src_address", &vec![0, 0x1b, 0x21, 0xa, 0xff, 1]), "0:1b:21:a:ff:1");
    assert_eq!(p.convert_data_to_string("addr", &vec![1, 2, 3]), "66051");
    assert_eq!(p.convert_data_to_string("add", &vec![10, 0, 0, 2]), "167772162");
    let plain = p.infer_address_type_flag(false);
    assert_eq!(plain.convert_data_to_string("dst_addr", &vec![10, 0, 0, 2]), "167772162");
}
