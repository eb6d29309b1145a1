use potato_plant_replay::utils::{query_to_hash_map, split_on};

#[test]
fn query_pairs_are_split() {
    let m = query_to_hash_map(Some("a=1&b=2"));
    assert_eq!(m.get("a"), Some("1".to_string()));
    assert_eq!(m.get("b"), Some("2".to_string()));
    assert_eq!(m.get("c"), None);
}

#[test]
fn query_key_without_value_maps_to_empty() {
    let m = query_to_hash_map(Some("a"));
    assert_eq!(m.get("a"), Some(String::new()));
    assert_eq!(m.get(""), None);
}

#[test]
fn query_segment_with_two_equals_is_dropped() {
    let m = query_to_hash_map(Some("a=b=c&d=e"));
    assert_eq!(m.get("a"), None);
    assert_eq!(m.get("a=b"), None);
    assert_eq!(m.get("d"), Some("e".to_string()));
}

#[test]
fn query_later_segment_wins() {
    let m = query_to_hash_map(Some("a=1&a=2"));
    assert_eq!(m.get("a"), Some("2".to_string()));
}

#[test]
fn query_empty_and_absent() {
    let m = query_to_hash_map(None);
    assert_eq!(m.get(""), None);
    let e = query_to_hash_map(Some(""));
    assert_eq!(e.get(""), Some(String::new()));
    let t = query_to_hash_map(Some("a=&=b&"));
    assert_eq!(t.get("a"), Some(String::new()));
    assert_eq!(t.get(""), Some(String::new()));
}

#[test]
fn split_matches_str_split() {
    for s in ["", "a", "&", "a&b", "&&x&", "é&ü=ö"] {
        let expected: Vec<String> = s.split('&').map(|p| p.to_string()).collect();
        assert_eq!(split_on(s, '&'), expected);
    }
}
