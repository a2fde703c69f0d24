use std::collections::HashSet;

use batter::js::source::ParseResult;
use batter::site::{SeenUrls, Site};
use batter::writer::bytes_to_write;

fn strings(items: &[&str]) -> Vec<String> {
    items.iter().map(|s| s.to_string()).collect()
}

#[test]
fn resolves_sources_against_the_site_and_drops_unresolvable_ones() {
    let site = Site::new("https://example.com/".to_string());
    let resolved = site.resolve_sources(strings(&[
        "/static/app.js",
        "vendor.js",
        "//cdn.example.com/lib.js",
        "https://other.org/x.js",
        "http://[::1",
    ]));
    assert_eq!(
        resolved,
        strings(&[
            "https://example.com/static/app.js",
            "https://example.com/vendor.js",
            "https://cdn.example.com/lib.js",
            "https://other.org/x.js",
        ])
    );
}

#[test]
fn keeps_only_same_domain_sources_by_default() {
    let site = Site::new("https://example.com/".to_string());
    let sources = strings(&[
        "https://example.com/a.js",
        "https://cdn.example.com/b.js",
        "https://other.org/c.js",
        "http://example.com:8080/d.js",
    ]);
    assert_eq!(
        site.apply_source_filters(sources.clone()),
        strings(&["https://example.com/a.js", "http://example.com:8080/d.js"])
    );
    assert_eq!(site.filter_external(sources), strings(&["https://example.com/a.js", "http://example.com:8080/d.js"]));
}

#[test]
fn keeps_every_source_when_external_sources_are_allowed() {
    let site = Site::new("https://example.com/".to_string()).allow_external_sources();
    let sources = strings(&["https://example.com/a.js", "https://other.org/c.js"]);
    assert_eq!(site.apply_source_filters(sources.clone()), sources);
}

#[test]
fn accumulates_endpoints_and_urls_and_resolves_chunk_urls() {
    let mut site = Site::new("https://example.com/".to_string());
    assert_eq!(site.endpoints_report(), None);
    assert_eq!(site.urls_report(), None);

    let next = site.record_parse_result(ParseResult {
        chunk_urls: strings(&["https://example.com/static/a.js", "static/b.js"]),
        endpoints: strings(&["/api/users", "/api/posts"]),
        urls: strings(&["https://api.example.com"]),
    });
    assert_eq!(next, strings(&["https://example.com/static/a.js", "https://example.com/static/b.js"]));

    site.record_parse_result(ParseResult {
        chunk_urls: vec![],
        endpoints: strings(&["/api/users", "/api/health"]),
        urls: vec![],
    });

    let endpoints = site.endpoints_report().expect("endpoints were found");
    let lines: HashSet<&str> = endpoints.split('\n').collect();
    assert_eq!(lines, HashSet::from(["/api/users", "/api/posts", "/api/health"]));
    assert_eq!(endpoints.split('\n').count(), 3);
    assert_eq!(site.urls_report(), Some("https://api.example.com".to_string()));
}

#[test]
fn never_schedules_a_url_twice() {
    let mut seen = SeenUrls::new();
    let first = seen.schedule(strings(&["https://a/1.js", "https://a/2.js", "https://a/1.js"]));
    assert_eq!(first, strings(&["https://a/1.js", "https://a/2.js"]));
    let second = seen.schedule(strings(&["https://a/2.js", "https://a/3.js"]));
    assert_eq!(second, strings(&["https://a/3.js"]));
    assert!(seen.schedule(strings(&["https://a/1.js", "https://a/3.js"])).is_empty());
}

#[test]
fn writes_formatted_bytes_only_when_formatting_was_asked_for_and_succeeded() {
    let original = b"const x={a:1}".to_vec();
    let formatted = b"const x = { a: 1 };\n".to_vec();
    assert_eq!(bytes_to_write(true, Some(formatted.clone()), original.clone()), formatted);
    assert_eq!(bytes_to_write(true, None, original.clone()), original);
    assert_eq!(bytes_to_write(false, Some(formatted), original.clone()), original);
    assert_eq!(bytes_to_write(false, None, original.clone()), original);
}
