use rex::runtime_config::{parse_runtime_config, split_entry, RuntimeConfig, RuntimeConfigError};

fn entries(items: &[&str]) -> Vec<String> {
    items.iter().map(|s| s.to_string()).collect()
}

#[test]
fn config_value_visible_to_component() {
    let c = parse_runtime_config(&entries(&["foo=bar"])).unwrap();
    assert_eq!(c.get("foo"), Some("bar".to_string()));
    assert!(c.contains_key("foo"));
    assert_eq!(c.get("missing"), None);
}

#[test]
fn later_entry_overrides_earlier() {
    let c = parse_runtime_config(&entries(&["a=1", "b=2", "a=3"])).unwrap();
    assert_eq!(c.get("a"), Some("3".to_string()));
    assert_eq!(c.get("b"), Some("2".to_string()));
}

#[test]
fn value_keeps_later_separators() {
    let c = parse_runtime_config(&entries(&["url=http://h/?x=1", "empty=", "=v"])).unwrap();
    assert_eq!(c.get("url"), Some("http://h/?x=1".to_string()));
    assert_eq!(c.get("empty"), Some(String::new()));
    assert_eq!(c.get(""), Some("v".to_string()));
}

#[test]
fn entry_without_separator_is_refused() {
    let r = parse_runtime_config(&entries(&["a=1", "broken", "also"]));
    assert!(matches!(r, Err(RuntimeConfigError::MissingSeparator(1))));
}

#[test]
fn empty_list_gives_empty_config() {
    let c = parse_runtime_config(&Vec::new()).unwrap();
    assert_eq!(c.get("foo"), None);
    assert_eq!(RuntimeConfig::new().get("foo"), None);
}

#[test]
fn split_entry_at_first_separator() {
    assert_eq!(split_entry("k=v=w"), Some(("k".to_string(), "v=w".to_string())));
    assert_eq!(split_entry("kv"), None);
    assert_eq!(split_entry("é=ü"), Some(("é".to_string(), "ü".to_string())));
}

#[test]
fn pairs_keep_entry_order() {
    let c = parse_runtime_config(&entries(&["a=1", "b=2", "a=3"])).unwrap();
    let p: Vec<(String, String)> = c.pairs().clone();
    assert_eq!(
        p,
        vec![
            ("a".to_string(), "1".to_string()),
            ("b".to_string(), "2".to_string()),
            ("a".to_string(), "3".to_string())
        ]
    );
}
