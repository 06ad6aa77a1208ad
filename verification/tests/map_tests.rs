use rustsynth::map::{OwnedMap, MapError, ValueType, InvalidKeyError, DataType, is_key_valid};

#[test]
fn test_owned_map_creation() {
    let map = OwnedMap::new();
    assert_eq!(map.key_count(), 0);
}

#[test]
fn test_map_set_and_get_int() {
    let mut map = OwnedMap::new();
    map.set("test_key", &42i64).expect("Failed to set int value");
    assert_eq!(map.key_count(), 1);
    let value: i64 = map.get("test_key").expect("Failed to get int value");
    assert_eq!(value, 42);
    assert_eq!(map.value_count("test_key").unwrap(), 1);
}

#[test]
fn test_map_set_and_get_string() {
    let mut map = OwnedMap::new();
    let test_string = "Hello, VapourSynth!".to_string();
    map.set("message", &test_string).expect("Failed to set string value");
    let value: String = map.get("message").expect("Failed to get string value");
    assert_eq!(value, test_string);
}

#[test]
fn test_map_keys_iterator() {
    let mut map = OwnedMap::new();
    map.set("key1", &1i64).unwrap();
    map.set("key2", &2i64).unwrap();
    map.set("key3", &3i64).unwrap();
    let keys: Vec<&str> = map.keys().into_iter().collect();
    assert_eq!(keys.len(), 3);
    assert!(keys.contains(&"key1"));
    assert!(keys.contains(&"key2"));
    assert!(keys.contains(&"key3"));
}

#[test]
fn test_map_key_existence() {
    let mut map = OwnedMap::new();
    assert_eq!(map.key_count(), 0);
    map.set("test", &1i64).unwrap();
    assert_eq!(map.key_count(), 1);
    assert!(map.get::<i64>("test").is_ok());
    assert!(map.get::<i64>("nonexistent").is_err());
}

#[test]
fn test_map_clear() {
    let mut map = OwnedMap::new();
    map.set("key1", &1i64).unwrap();
    map.set("key2", &2i64).unwrap();
    assert_eq!(map.key_count(), 2);
    map.clear();
    assert_eq!(map.key_count(), 0);
}

#[test]
fn int_set() {
    let mut map = OwnedMap::new();
    map.set_int_array("best", vec![1, 26, 4]).unwrap();
}

#[test]
fn int_type() {
    let mut map = OwnedMap::new();
    map.set_int_array("best", vec![1, 26, 4]).unwrap();
    assert_eq!(map.value_type("best").unwrap(), ValueType::Int);
}

#[test]
fn int_get() {
    let mut map = OwnedMap::new();
    map.set_int_array("best", vec![1, 26, 4]).unwrap();
    assert_eq!(map.get_int_array("best").unwrap(), &[1, 26, 4][..]);
}

#[test]
fn key_validity() {
    assert_eq!(is_key_valid("_ok9"), Ok(()));
    assert_eq!(is_key_valid(""), Err(InvalidKeyError::EmptyKey));
    assert_eq!(is_key_valid("9a"), Err(InvalidKeyError::InvalidCharacter(0)));
    assert_eq!(is_key_valid("ab-c"), Err(InvalidKeyError::InvalidCharacter(2)));
    let mut map = OwnedMap::new();
    assert_eq!(map.set_int("bad key", 1), Err(MapError::InvalidKey(InvalidKeyError::InvalidCharacter(3))));
    assert_eq!(map.key_count(), 0);
}

#[test]
fn read_errors() {
    let mut map = OwnedMap::new();
    assert_eq!(map.get_int("missing"), Err(MapError::KeyNotFound));
    map.set_int("n", 5).unwrap();
    assert_eq!(map.get_string("n"), Err(MapError::WrongValueType));
    map.set_string("s", "text").unwrap();
    assert_eq!(map.get_int("s"), Err(MapError::WrongValueType));
    assert_eq!(map.data_type_hint("s", 0), DataType::String);
    assert_eq!(map.data_type_hint("s", 1), DataType::Unknown);
}

#[test]
fn set_replaces_and_append_extends() {
    let mut map = OwnedMap::new();
    map.set_int("a", 1).unwrap();
    map.set_int("b", 2).unwrap();
    map.set_int("a", 3).unwrap();
    assert_eq!(map.keys(), vec!["a", "b"]);
    assert_eq!(map.get_int("a"), Ok(3));
    map.append_int("a", 4).unwrap();
    assert_eq!(map.get_int_array("a").unwrap(), &[3, 4][..]);
    map.append_int("c", 7).unwrap();
    assert_eq!(map.get_int_array("c").unwrap(), &[7][..]);
    assert_eq!(map.append_data("a", b"x"), Err(MapError::WrongValueType));
}

#[test]
fn delete_key_removes_only_that_key() {
    let mut map = OwnedMap::new();
    map.set_int("a", 1).unwrap();
    map.set_int("b", 2).unwrap();
    map.delete_key("a").unwrap();
    assert_eq!(map.get_int("a"), Err(MapError::KeyNotFound));
    assert_eq!(map.get_int("b"), Ok(2));
    assert_eq!(map.delete_key("a"), Err(MapError::KeyNotFound));
}

#[test]
fn string_reads_stop_at_nul_and_replace_invalid_bytes() {
    let mut map = OwnedMap::new();
    map.set_data("d", b"ab\0cd").unwrap();
    assert_eq!(map.get_string("d").unwrap(), "ab");
    map.set_data("e", &[0x61, 0xff, 0x62]).unwrap();
    assert_eq!(map.get_string("e").unwrap(), "a\u{fffd}b");
}

#[test]
fn error_message_rejects_nul() {
    let mut map = OwnedMap::new();
    assert_eq!(map.error(), None);
    map.set_error("broken").unwrap();
    assert_eq!(map.error(), Some("broken"));
    assert_eq!(map.set_error("a\0b"), Err(MapError::CStringConversion));
}

#[test]
fn copy_map_keeps_entries() {
    let mut map = OwnedMap::new();
    map.set_int("a", 1).unwrap();
    map.set_string("b", "x").unwrap();
    let copy = map.copy_map();
    assert_eq!(copy.keys(), vec!["a", "b"]);
    assert_eq!(copy.get_int("a"), Ok(1));
    assert_eq!(copy.get_string("b").unwrap(), "x");
}

#[test]
fn empty_arrays_have_no_first_value() {
    let mut map = OwnedMap::new();
    map.set_int_array("k", vec![]).unwrap();
    assert_eq!(map.get_int("k"), Err(MapError::IndexOutOfBounds));
    assert_eq!(map.value_count("k"), Ok(0));
}

#[test]
fn later_data_items_read_by_index() {
    let mut map = OwnedMap::new();
    map.set_data("d", b"first").unwrap();
    map.append_data("d", b"sec\0ond").unwrap();
    map.append_data("d", &[0x61, 0xff]).unwrap();
    assert_eq!(map.get_data_at("d", 0).unwrap().as_bytes(), b"first");
    assert_eq!(map.get_data_at("d", 1).unwrap().as_bytes(), b"sec\0ond");
    assert_eq!(map.get_string_at("d", 1).unwrap(), "sec");
    assert_eq!(map.get_string_at("d", 2).unwrap(), "a\u{fffd}");
    assert_eq!(map.get_data_at("d", 3).map(|d| d.as_bytes().to_vec()), Err(MapError::IndexOutOfBounds));
    assert_eq!(map.get_string_at("d", 3), Err(MapError::IndexOutOfBounds));
    assert_eq!(map.get_string_at("missing", 0), Err(MapError::KeyNotFound));
    map.set_int("i", 4).unwrap();
    assert_eq!(map.get_string_at("i", 0), Err(MapError::WrongValueType));
}
