use http_relay::keyed::Keyed;

#[test]
fn values_are_found_under_their_keys() {
    let mut keyed: Keyed<u32> = Keyed::new();
    assert_eq!(keyed.len(), 0);
    assert_eq!(keyed.insert("a".to_string(), 1), None);
    assert_eq!(keyed.insert("b".to_string(), 2), None);
    assert_eq!(keyed.get("a"), Some(&1));
    assert_eq!(keyed.get("b"), Some(&2));
    assert_eq!(keyed.get("c"), None);
    assert_eq!(keyed.len(), 2);
}

#[test]
fn a_key_holds_one_value() {
    let mut keyed: Keyed<u32> = Keyed::new();
    keyed.insert("a".to_string(), 1);
    assert_eq!(keyed.insert("a".to_string(), 5), Some(1));
    assert_eq!(keyed.len(), 1);
    assert_eq!(keyed.remove("a"), Some(5));
    assert_eq!(keyed.remove("a"), None);
    assert!(!keyed.contains_key("a"));
}

#[test]
fn walking_and_emptying_a_collection() {
    let mut keyed: Keyed<u32> = Keyed::new();
    keyed.push("x".to_string(), 10);
    keyed.push("y".to_string(), 20);
    let (key, value) = keyed.entry(1);
    assert_eq!((key.as_str(), *value), ("y", 20));
    assert_eq!(keyed.pop(), Some(("y".to_string(), 20)));
    assert_eq!(keyed.pop(), Some(("x".to_string(), 10)));
    assert_eq!(keyed.pop(), None);
}
