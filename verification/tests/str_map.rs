use rbfrt::str_map::StrMap;

#[test]
fn insert_and_get() {
    let m: StrMap<u32> = StrMap::new();
    assert!(m.is_empty());
    let m = m.insert(String::from("a"), 1).insert(String::from("b"), 2);
    assert_eq!(m.len(), 2);
    assert_eq!(m.get("a"), Some(&1));
    assert_eq!(m.get("b"), Some(&2));
    assert_eq!(m.get("c"), None);
    assert!(m.contains_key("a"));
    assert!(!m.contains_key("c"));
}

#[test]
fn second_insert_replaces_in_place() {
    let m: StrMap<u32> = StrMap::new()
        .insert(String::from("a"), 1)
        .insert(String::from("b"), 2)
        .insert(String::from("a"), 3);
    assert_eq!(m.len(), 2);
    assert_eq!(m.key_at(0), "a");
    assert_eq!(*m.value_at(0), 3);
    assert_eq!(m.key_at(1), "b");
    assert_eq!(*m.value_at(1), 2);
}

#[test]
fn clone_keeps_entries() {
    let m: StrMap<Vec<u8>> = StrMap::new().insert(String::from("x"), vec![1, 2]);
    let c = m.clone();
    assert_eq!(c.len(), 1);
    assert_eq!(c.get("x"), Some(&vec![1, 2]));
}
