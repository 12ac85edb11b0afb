use tide_validator::QueryCache;

#[test]
fn new_cache_has_decoded_nothing() {
    let cache = QueryCache::new("n=42");
    assert_eq!(cache.decodes(), 0);
    assert_eq!(cache.value("n"), None);
}

#[test]
fn load_decodes_the_parameters() {
    let mut cache = QueryCache::new("n=42&test=coucou");
    assert!(cache.load());
    assert_eq!(cache.decodes(), 1);
    assert_eq!(cache.value("n"), Some("42"));
    assert_eq!(cache.value("test"), Some("coucou"));
    assert_eq!(cache.value("other"), None);
}

#[test]
fn load_decodes_only_once() {
    let mut cache = QueryCache::new("a=1&b=2");
    assert!(cache.load());
    assert!(cache.load());
    assert!(cache.load());
    assert_eq!(cache.decodes(), 1);
    assert_eq!(cache.value("a"), Some("1"));
    assert_eq!(cache.value("b"), Some("2"));
}

#[test]
fn empty_query_string_has_no_parameter() {
    let mut cache = QueryCache::new("");
    assert!(cache.load());
    assert_eq!(cache.decodes(), 1);
    assert_eq!(cache.value("a"), None);
}

#[test]
fn values_are_percent_decoded() {
    let mut cache = QueryCache::new("greeting=hello%20world&caf%C3%A9=au+lait");
    assert!(cache.load());
    assert_eq!(cache.value("greeting"), Some("hello world"));
    assert_eq!(cache.value("caf\u{e9}"), Some("au lait"));
    assert_eq!(cache.value("caf%C3%A9"), None);
}

#[test]
fn parameter_without_a_value_is_empty() {
    let mut cache = QueryCache::new("flag");
    assert!(cache.load());
    assert_eq!(cache.value("flag"), Some(""));
}

#[test]
fn malformed_query_string_is_reported() {
    for text in ["a[b]=1", "a=1&a=2", "a=%ff", "a[b"] {
        let mut cache = QueryCache::new(text);
        assert!(!cache.load(), "{:?}", text);
        assert_eq!(cache.decodes(), 1);
        assert_eq!(cache.value("a"), None);
    }
}

#[test]
fn malformed_query_string_is_not_decoded_again() {
    let mut cache = QueryCache::new("a[b]=1");
    assert!(!cache.load());
    assert!(!cache.load());
    assert_eq!(cache.decodes(), 1);
}
