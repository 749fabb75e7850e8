use shvlogin::text::{same_text, text_of};
use shvlogin::value::{RpcMap, RpcValue};

#[test]
fn new_map_is_empty() {
    let map = RpcMap::new();
    assert!(map.is_empty());
    assert_eq!(map.len(), 0);
    assert_eq!(map.get("anything"), None);
}

#[test]
fn insert_then_get() {
    let mut map = RpcMap::new();
    map.insert("a".to_string(), RpcValue::Int(1));
    map.insert("b".to_string(), RpcValue::String("two".to_string()));
    assert!(!map.is_empty());
    assert_eq!(map.len(), 2);
    assert_eq!(map.get("a"), Some(&RpcValue::Int(1)));
    assert_eq!(map.get("b"), Some(&RpcValue::String("two".to_string())));
    assert_eq!(map.get("c"), None);
}

#[test]
fn insert_under_a_present_key_replaces_in_place() {
    let mut map = RpcMap::new();
    map.insert("a".to_string(), RpcValue::Int(1));
    map.insert("b".to_string(), RpcValue::Int(2));
    map.insert("a".to_string(), RpcValue::Int(3));
    let mut expected = RpcMap::new();
    expected.insert("a".to_string(), RpcValue::Int(3));
    expected.insert("b".to_string(), RpcValue::Int(2));
    assert_eq!(map.len(), 2);
    assert_eq!(map, expected);
}

#[test]
fn insertion_order_is_kept() {
    let mut first = RpcMap::new();
    first.insert("b".to_string(), RpcValue::Null);
    first.insert("a".to_string(), RpcValue::Null);
    let mut second = RpcMap::new();
    second.insert("a".to_string(), RpcValue::Null);
    second.insert("b".to_string(), RpcValue::Null);
    assert_ne!(first, second);
}

#[test]
fn get_on_a_value_that_is_no_mapping() {
    assert_eq!(RpcValue::Null.get("k"), None);
    assert_eq!(RpcValue::Int(4).get("k"), None);
    assert_eq!(RpcValue::String("k".to_string()).get("k"), None);
}

#[test]
fn as_str_reads_strings_only() {
    assert_eq!(RpcValue::String("abc".to_string()).as_str(), Some("abc"));
    assert_eq!(RpcValue::String(String::new()).as_str(), Some(""));
    assert_eq!(RpcValue::Int(1).as_str(), None);
    assert_eq!(RpcValue::Null.as_str(), None);
    assert_eq!(RpcValue::Mapping(RpcMap::new()).as_str(), None);
}

#[test]
fn as_i32_reads_integers() {
    assert_eq!(RpcValue::Int(42).as_i32(), 42);
    assert_eq!(RpcValue::Int(-7).as_i32(), -7);
    assert_eq!(RpcValue::Int(i32::MAX as i128).as_i32(), i32::MAX);
    assert_eq!(RpcValue::Int(i32::MIN as i128).as_i32(), i32::MIN);
}

#[test]
fn as_i32_keeps_the_low_32_bits() {
    assert_eq!(RpcValue::Int(1 << 32).as_i32(), 0);
    assert_eq!(RpcValue::Int((1 << 32) + 5).as_i32(), 5);
    assert_eq!(RpcValue::Int(i32::MAX as i128 + 1).as_i32(), i32::MIN);
}

#[test]
fn as_i32_of_other_values_is_zero() {
    assert_eq!(RpcValue::Null.as_i32(), 0);
    assert_eq!(RpcValue::String("12".to_string()).as_i32(), 0);
    assert_eq!(RpcValue::Mapping(RpcMap::new()).as_i32(), 0);
}

#[test]
fn same_text_compares_characters() {
    assert!(same_text("", ""));
    assert!(same_text("nonce", "nonce"));
    assert!(!same_text("nonce", "nonc"));
    assert!(!same_text("nonce", "nonze"));
    assert!(!same_text("user", "type"));
    assert!(same_text("žluťoučký", "žluťoučký"));
    assert!(!same_text("žluťoučký", "zlutoucky"));
}

#[test]
fn text_of_well_formed_bytes() {
    assert_eq!(text_of(b""), Some(String::new()));
    assert_eq!(text_of(b"abc"), Some("abc".to_string()));
    assert_eq!(text_of(&[0xc5, 0xbe]), Some("ž".to_string()));
}

#[test]
fn text_of_bytes_that_are_no_text() {
    assert_eq!(text_of(&[0xff]), None);
    assert_eq!(text_of(&[0xc5]), None);
    assert_eq!(text_of(&[0xed, 0xa0, 0x80]), None);
    assert_eq!(text_of(&[0xc0, 0x80]), None);
}
