use std::collections::HashSet;

use batter::html::Document;

fn document(text: &str) -> Document {
    match Document::new(text.as_bytes()) {
        Ok(d) => d,
        Err(_) => panic!("the page is UTF-8"),
    }
}

#[test]
fn collects_script_and_preloaded_script_sources() {
    let page = document(
        r#"<!doctype html><html><head>
            <script src="/static/app.js"></script>
            <script>console.log("inline")</script>
            <link rel="preload" as="script" href="/static/chunk.js">
            <link rel="stylesheet" href="/static/site.css">
            <script src="/static/app.js"></script>
        </head><body><script src="https://cdn.example.com/lib.js"></script></body></html>"#,
    );

    let scripts: HashSet<String> = page.script_sources().into_iter().collect();
    assert_eq!(
        scripts,
        HashSet::from(["/static/app.js".to_string(), "https://cdn.example.com/lib.js".to_string()])
    );

    let links = page.link_sources();
    assert_eq!(links, vec!["/static/chunk.js".to_string()]);

    let sources = page.sources();
    let unique: HashSet<String> = sources.iter().cloned().collect();
    assert_eq!(unique.len(), sources.len());
    assert_eq!(
        unique,
        HashSet::from([
            "/static/app.js".to_string(),
            "https://cdn.example.com/lib.js".to_string(),
            "/static/chunk.js".to_string(),
        ])
    );
}

#[test]
fn a_page_without_scripts_has_no_sources() {
    assert!(document("<html><body><p>hello</p></body></html>").sources().is_empty());
}

#[test]
fn rejects_a_page_that_is_not_utf8() {
    assert!(Document::new(&[0x3c, 0xff, 0xfe, 0x3e]).is_err());
}
