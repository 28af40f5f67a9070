use gluesql_derive::{Error, FromGlueSql, Inet, TextMap, Value};

#[test]
fn map_inserts_and_replaces() {
    let mut map: TextMap<i64> = TextMap::new();
    assert_eq!(map.get(&"a".to_string()), None);
    assert_eq!(map.insert("a".to_string(), 1), None);
    assert_eq!(map.insert("b".to_string(), 2), None);
    assert_eq!(map.insert("a".to_string(), 3), Some(1));
    assert_eq!(map.get(&"a".to_string()), Some(&3));
    assert_eq!(map.get(&"b".to_string()), Some(&2));
    assert_eq!(map.get(&"c".to_string()), None);
    assert_eq!(map.into_entries(), vec![("a".to_string(), 3), ("b".to_string(), 2)]);
}

#[test]
fn map_is_read_from_a_map_value() {
    let value = Value::Mapping(vec![
        ("one".to_string(), Value::I64(1)),
        ("two".to_string(), Value::I64(2)),
    ]);
    let map = <TextMap<i64>>::from_gluesql(value).unwrap();
    assert_eq!(map.get(&"one".to_string()), Some(&1));
    assert_eq!(map.get(&"two".to_string()), Some(&2));
    assert_eq!(map.into_entries().len(), 2);
}

#[test]
fn map_fails_with_the_first_refused_entry() {
    let value = Value::Mapping(vec![
        ("one".to_string(), Value::I64(1)),
        ("two".to_string(), Value::Bool(true)),
        ("three".to_string(), Value::Null),
    ]);
    assert_eq!(
        <TextMap<i64>>::from_gluesql(value).err(),
        Some(Error::InvalidConversion("i64", Value::Bool(true)))
    );
    assert_eq!(
        <TextMap<i64>>::from_gluesql(Value::List(vec![])).err(),
        Some(Error::InvalidConversion("HashMap<String, T>", Value::List(vec![])))
    );
}

#[test]
fn nested_containers() {
    let value = Value::Mapping(vec![(
        "xs".to_string(),
        Value::List(vec![Value::Null, Value::Str("s".to_string())]),
    )]);
    let map = <TextMap<Vec<Option<String>>>>::from_gluesql(value).unwrap();
    assert_eq!(map.get(&"xs".to_string()), Some(&vec![None, Some("s".to_string())]));
}

#[test]
fn network_address() {
    assert_eq!(Inet::from_gluesql(Value::Inet(Inet::V4(0x7f000001))), Ok(Inet::V4(0x7f000001)));
    assert_eq!(
        Inet::from_gluesql(Value::Str("127.0.0.1".to_string())),
        Err(Error::InvalidConversion("IpAddr", Value::Str("127.0.0.1".to_string())))
    );
}
