use burnt_sushi::filter::FilterConfig;

fn strings(items: &[&str]) -> Vec<String> {
    items.iter().map(|s| String::from(*s)).collect()
}

#[test]
fn config_keeps_its_lists_in_order() {
    let config = FilterConfig::new(strings(&["b", "a", "b"]), strings(&["x"]));
    assert_eq!(config.allowlist(), &strings(&["b", "a", "b"]));
    assert_eq!(config.denylist(), &strings(&["x"]));
}

#[test]
fn empty_config_has_empty_lists() {
    let config = FilterConfig::new(Vec::new(), Vec::new());
    assert!(config.allowlist().is_empty());
    assert!(config.denylist().is_empty());
}

#[test]
fn clone_holds_the_same_lists() {
    let config = FilterConfig::new(strings(&["a", "b"]), strings(&["c"]));
    let copy = config.clone();
    assert_eq!(copy, config);
    assert_eq!(copy.allowlist(), &strings(&["a", "b"]));
    assert_eq!(copy.denylist(), &strings(&["c"]));
}

#[test]
fn lists_are_not_confused_with_each_other() {
    let config = FilterConfig::new(strings(&["a"]), strings(&["b"]));
    assert_ne!(config, FilterConfig::new(strings(&["b"]), strings(&["a"])));
}

#[test]
fn into_parts_returns_allowlist_then_denylist() {
    let config = FilterConfig::new(strings(&["a", "b"]), strings(&["c"]));
    let (allowlist, denylist) = config.into_parts();
    assert_eq!(allowlist, strings(&["a", "b"]));
    assert_eq!(denylist, strings(&["c"]));
}
