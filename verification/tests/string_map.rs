use linka_core::string_map::StringMap;

#[test]
fn new_map_is_empty() {
    let map: StringMap<u32> = StringMap::new();
    assert!(map.is_empty());
    assert_eq!(map.len(), 0);
    assert!(!map.contains_key("a"));
    assert_eq!(map.get("a"), None);
}

#[test]
fn insert_then_get() {
    let mut map = StringMap::new();
    assert_eq!(map.insert("a".to_string(), 1), None);
    assert_eq!(map.insert("b".to_string(), 2), None);
    assert_eq!(map.len(), 2);
    assert_eq!(map.get("a"), Some(&1));
    assert_eq!(map.get("b"), Some(&2));
    assert_eq!(map.get("c"), None);
    assert!(map.contains_key("b"));
    assert!(!map.is_empty());
}

#[test]
fn insert_replaces_and_returns_the_old_value() {
    let mut map = StringMap::new();
    map.insert("a".to_string(), 1);
    map.insert("b".to_string(), 2);
    assert_eq!(map.insert("a".to_string(), 10), Some(1));
    assert_eq!(map.len(), 2);
    assert_eq!(map.get("a"), Some(&10));
    assert_eq!(map.get("b"), Some(&2));
}

#[test]
fn keys_are_compared_by_text() {
    let mut map = StringMap::new();
    map.insert("amount".to_string(), 1);
    assert!(!map.contains_key("amoun"));
    assert!(!map.contains_key("amount "));
    assert!(!map.contains_key("Amount"));
    assert!(!map.contains_key(""));
    assert!(map.contains_key("amount"));
}

#[test]
fn remove_takes_the_key_out() {
    let mut map = StringMap::new();
    map.insert("a".to_string(), 1);
    map.insert("b".to_string(), 2);
    map.insert("c".to_string(), 3);
    assert_eq!(map.remove("a"), Some(1));
    assert_eq!(map.remove("a"), None);
    assert_eq!(map.len(), 2);
    assert_eq!(map.get("b"), Some(&2));
    assert_eq!(map.get("c"), Some(&3));
    assert_eq!(map.remove("missing"), None);
    assert_eq!(map.len(), 2);
}

#[test]
fn into_pairs_holds_each_key_once() {
    let mut map = StringMap::new();
    map.insert("a".to_string(), 1);
    map.insert("b".to_string(), 2);
    map.insert("a".to_string(), 3);
    let mut pairs = map.into_pairs();
    pairs.sort();
    assert_eq!(pairs, vec![("a".to_string(), 3), ("b".to_string(), 2)]);
}
