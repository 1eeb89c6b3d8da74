use fetch::search::{rfind, starts_with};
use fetch::uri::normalize_uri;

#[test]
fn normalize_adds_scheme() {
    assert_eq!(normalize_uri("example.com/file"), "http://example.com/file");
    assert_eq!(normalize_uri(""), "http://");
    assert_eq!(normalize_uri("ftp://host/x"), "http://ftp://host/x");
    assert_eq!(normalize_uri("HTTP://host"), "http://HTTP://host");
    assert_eq!(normalize_uri("http:/host"), "http://http:/host");
}

#[test]
fn normalize_keeps_scheme() {
    assert_eq!(normalize_uri("http://example.com"), "http://example.com");
    assert_eq!(normalize_uri("https://example.com/a"), "https://example.com/a");
    assert_eq!(normalize_uri("http://"), "http://");
}

#[test]
fn rfind_positions() {
    assert_eq!(rfind("a/b/c", "/"), Some(3));
    assert_eq!(rfind("abc", "/"), None);
    assert_eq!(rfind("abc", ""), Some(3));
    assert_eq!(rfind("ab", "abc"), None);
    assert_eq!(rfind("xaaay", "aa"), Some(2));
    assert_eq!(rfind("\u{e9}/x", "/"), Some(1));
}

#[test]
fn starts_with_prefixes() {
    assert!(starts_with("https://x", "https://"));
    assert!(starts_with("abc", ""));
    assert!(!starts_with("http", "http://"));
    assert!(!starts_with("xhttp://", "http://"));
}
