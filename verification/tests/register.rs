use rbfrt::error::RBFRTError;
use rbfrt::register::{
    group_action_data, is_register_entry, read_requests, write_requests, Register, RegisterEntry, Request,
};
use rbfrt::str_map::StrMap;
use rbfrt::table::{ActionData, MatchValue, RequestType, TableEntry};
use std::collections::HashMap;

fn entry(index: u32, data: Vec<(&str, Vec<u8>)>) -> TableEntry {
    TableEntry {
        table_id: 1,
        table_name: "reg".to_string(),
        match_keys: StrMap::new().insert("$REGISTER_INDEX".to_string(), MatchValue::exact(index)),
        default_entry: false,
        action: "NoAction".to_string(),
        action_data: data.into_iter().map(|(k, v)| ActionData::new(k, v)).collect(),
    }
}

#[test]
fn register_entries_are_grouped_by_index_and_name() {
    let reg = Register::parse_register_entries(
        vec![
            entry(20, vec![("f1", vec![1]), ("f1", vec![2]), ("f2", vec![3])]),
            entry(21, vec![("f1", vec![4])]),
            entry(20, vec![("f1", vec![9])]),
        ],
        "ingress.reg",
    );
    assert_eq!(reg.name(), "ingress.reg");
    assert_eq!(reg.entries().len(), 2);
    let e20 = reg.get(20).unwrap();
    assert_eq!(e20.get_index(), 20);
    assert_eq!(e20.get("f1"), Some(&vec![vec![9u8]]));
    assert_eq!(e20.get("f2"), None);
    let e21 = reg.get(21).unwrap();
    assert_eq!(e21.get("f1"), Some(&vec![vec![4u8]]));
    assert_eq!(e21.get_data().len(), 1);
    assert!(reg.get(22).is_none());
}

#[test]
fn values_of_one_name_keep_their_order() {
    let data = vec![ActionData::new("a", vec![1u8]), ActionData::new("b", vec![2u8]), ActionData::new("a", vec![3u8])];
    let grouped = group_action_data(&data);
    assert_eq!(grouped.len(), 2);
    assert_eq!(grouped.get("a"), Some(&vec![vec![1u8], vec![3u8]]));
    assert_eq!(grouped.get("b"), Some(&vec![vec![2u8]]));
}

#[test]
fn register_of_nothing_is_empty() {
    let reg = Register::parse_register_entries(vec![], "r");
    assert_eq!(reg.entries().len(), 0);
    let reg = Register::new("r", HashMap::new());
    assert!(reg.get(0).is_none());
    let e = RegisterEntry::new(3, StrMap::new());
    assert_eq!(e.get_index(), 3);
    assert!(e.get("x").is_none());
}

#[test]
fn register_request_builder() {
    let req = Request::new("ingress.reg");
    assert_eq!(req.get_name(), "ingress.reg");
    assert_eq!(*req.get_index(), None);
    assert!(req.get_data().is_empty());
    let req = req.index(20).data("f1", 5u32).data("f2", true).data("f1", 6u32);
    assert_eq!(*req.get_index(), Some(20));
    assert_eq!(req.get_data().len(), 2);
    assert_eq!(req.get_data().get("f1"), Some(&vec![0u8, 0, 0, 6]));
    assert_eq!(req.get_data().get("f2"), Some(&vec![1u8]));
}

#[test]
fn register_read_request() {
    let all = Request::new("ingress.reg").read_request();
    assert_eq!(all.get_table_name(), "ingress.reg");
    assert_eq!(*all.get_type(), RequestType::Read);
    assert!(all.get_match_keys().is_empty());
    let one = Request::new("ingress.reg").index(20).read_request();
    assert_eq!(one.get_match_keys().len(), 1);
    assert_eq!(
        one.get_match_keys().get("$REGISTER_INDEX"),
        Some(&MatchValue::ExactValue { bytes: vec![0, 0, 0, 20] })
    );
}

#[test]
fn register_write_request() {
    assert_eq!(Request::new("r").data("f", 1u8).write_request().unwrap_err(), RBFRTError::MissingRegisterIndex);
    let req = Request::new("r").index(7).data("f1", 5u8).data("f2", 6u16).write_request().unwrap();
    assert_eq!(req.get_table_name(), "r");
    assert!(!req.has_action());
    assert_eq!(
        req.get_match_keys().get("$REGISTER_INDEX"),
        Some(&MatchValue::ExactValue { bytes: vec![0, 0, 0, 7] })
    );
    assert_eq!(req.get_action_data().len(), 2);
    assert_eq!(req.get_action_data()[0], ActionData::new("f1", vec![5u8]));
    assert_eq!(req.get_action_data()[1], ActionData::new("f2", vec![0u8, 6]));
}

#[test]
fn register_request_batches() {
    let batch = vec![Request::new("r").index(1), Request::new("r"), Request::new("q").index(2).data("f", 3u8)];
    let reads = read_requests(&batch);
    assert_eq!(reads.len(), 2);
    assert_eq!(reads[0].get_table_name(), "r");
    assert_eq!(reads[1].get_table_name(), "q");
    assert_eq!(
        reads[1].get_match_keys().get("$REGISTER_INDEX"),
        Some(&MatchValue::ExactValue { bytes: vec![0, 0, 0, 2] })
    );
    assert_eq!(reads[1].get_action_data().len(), 0);
    assert_eq!(write_requests(&batch).unwrap_err(), RBFRTError::MissingRegisterIndex);
    let writes = write_requests(&vec![Request::new("r").index(1).data("f", 3u8), Request::new("q").index(2)]).unwrap();
    assert_eq!(writes.len(), 2);
    assert_eq!(writes[0].get_action_data()[0], ActionData::new("f", vec![3u8]));
    assert_eq!(writes[1].get_action_data().len(), 0);
    assert_eq!(write_requests(&vec![]).unwrap().len(), 0);
}

#[test]
fn register_entries_are_recognised() {
    assert!(is_register_entry(&entry(3, vec![])));
    let mut wide = entry(3, vec![]);
    wide.match_keys = StrMap::new().insert("$REGISTER_INDEX".to_string(), MatchValue::exact(vec![1u8, 0, 0, 0, 0]));
    assert!(!is_register_entry(&wide));
    let mut padded = entry(3, vec![]);
    padded.match_keys = StrMap::new().insert("$REGISTER_INDEX".to_string(), MatchValue::exact(vec![0u8, 0, 0, 0, 9]));
    assert!(is_register_entry(&padded));
    let mut range = entry(3, vec![]);
    range.match_keys = StrMap::new().insert("$REGISTER_INDEX".to_string(), MatchValue::range(1u8, 2u8));
    assert!(!is_register_entry(&range));
    let mut none = entry(3, vec![]);
    none.match_keys = StrMap::new();
    assert!(!is_register_entry(&none));
    assert!(Register::from_entries(vec![entry(1, vec![]), none], "r").is_none());
    let reg = Register::from_entries(vec![entry(1, vec![("f", vec![7])]), padded], "r").unwrap();
    assert_eq!(reg.entries().len(), 2);
    assert_eq!(reg.get(9).unwrap().get_index(), 9);
    assert_eq!(reg.get(1).unwrap().get("f"), Some(&vec![vec![7u8]]));
}
