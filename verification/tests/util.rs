use batter::util::resolve_source_url;
use batter::text::strip_quotes;

fn resolve(domain: &str, src: &str) -> (String, String) {
    match resolve_source_url(domain, src) {
        Ok(resolved) => resolved,
        Err(_) => panic!("{src} does not resolve against {domain}"),
    }
}

#[test]
fn resolves_root_relative_path() {
    let (host, path) = resolve("example.com", "/static/foo.js");
    assert_eq!(host, "example.com");
    assert_eq!(path, "/static/foo.js");
}

#[test]
fn resolves_bare_relative_path() {
    let (host, path) = resolve("example.com", "static/foo.js");
    assert_eq!(host, "example.com");
    assert_eq!(path, "/static/foo.js");
}

#[test]
fn resolves_protocol_relative_same_host() {
    let (host, path) = resolve("example.com", "//example.com/foo.js");
    assert_eq!(host, "example.com");
    assert_eq!(path, "/foo.js");
}

#[test]
fn resolves_protocol_relative_different_host() {
    let (host, path) = resolve("example.com", "//cdn.example.com/foo.js");
    assert_eq!(host, "cdn.example.com");
    assert_eq!(path, "/foo.js");
}

#[test]
fn resolves_absolute_same_host() {
    let (host, path) = resolve("example.com", "https://example.com/foo.js");
    assert_eq!(host, "example.com");
    assert_eq!(path, "/foo.js");
}

#[test]
fn resolves_absolute_different_host() {
    let (host, path) = resolve("example.com", "https://cdn.example.com/foo.js");
    assert_eq!(host, "cdn.example.com");
    assert_eq!(path, "/foo.js");
}

#[test]
fn preserves_query_string() {
    let (host, path) = resolve("example.com", "/foo.js?v=123");
    assert_eq!(host, "example.com");
    assert_eq!(path, "/foo.js?v=123");
}

#[test]
fn rejects_a_domain_that_is_no_host() {
    assert!(resolve_source_url("exa mple.com", "/foo.js").is_err());
}

#[test]
fn strips_one_layer_of_quotes() {
    assert_eq!(strip_quotes("\"abc\""), "abc");
    assert_eq!(strip_quotes("'abc'"), "abc");
    assert_eq!(strip_quotes("'abc\""), "abc");
    assert_eq!(strip_quotes("\"\"abc\"\""), "\"abc\"");
    assert_eq!(strip_quotes("\"\""), "");
    assert_eq!(strip_quotes("\""), "\"");
    assert_eq!(strip_quotes("abc"), "abc");
    assert_eq!(strip_quotes("\"abc"), "\"abc");
    assert_eq!(strip_quotes(""), "");
}

