use ducklake::params::Params;
use std::collections::HashMap;

#[test]
fn params_hold_one_value_under_a_name() {
    let mut params = Params::new();
    assert_eq!(params.get("a"), None);
    params.insert("a".to_string(), "1".to_string());
    params.insert("b".to_string(), "2".to_string());
    params.insert("a".to_string(), "3".to_string());
    assert_eq!(params.get("a"), Some("3"));
    assert_eq!(params.get("b"), Some("2"));
    assert!(params.contains_key("b"));
    assert!(!params.contains_key("c"));
    assert_eq!(params.entries().len(), 2);
}

#[test]
fn params_give_back_what_is_taken_out() {
    let mut params = Params::new();
    params.insert("a".to_string(), "1".to_string());
    params.insert("b".to_string(), "2".to_string());
    params.insert("c".to_string(), "3".to_string());
    assert_eq!(params.remove("b"), Some("2".to_string()));
    assert_eq!(params.remove("b"), None);
    assert!(!params.contains_key("b"));
    assert_eq!(params.get("a"), Some("1"));
    assert_eq!(params.get("c"), Some("3"));
}

#[test]
fn params_behave_like_a_hash_map() {
    let mut params = Params::new();
    let mut map: HashMap<String, String> = HashMap::new();
    let mut state: u32 = 7;
    for _ in 0..2000 {
        state = state.wrapping_mul(1664525).wrapping_add(1013904223);
        let name = format!("k{}", (state >> 8) % 13);
        let value = format!("v{}", state >> 20);
        if (state >> 16) % 3 == 0 {
            assert_eq!(params.remove(&name), map.remove(&name));
        } else {
            params.insert(name.clone(), value.clone());
            map.insert(name.clone(), value);
        }
        assert_eq!(params.get(&name), map.get(&name).map(String::as_str));
    }
    let entries: HashMap<String, String> = params.entries().iter().cloned().collect();
    assert_eq!(entries, map);
    assert_eq!(params.entries().len(), map.len());
}
