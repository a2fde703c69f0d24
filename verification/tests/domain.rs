use std::collections::HashSet;

use batter::domain::parse_subfinder_output;

fn subdomains(output: &str) -> HashSet<String> {
    let found = parse_subfinder_output(output);
    let set: HashSet<String> = found.iter().cloned().collect();
    assert_eq!(set.len(), found.len(), "each subdomain is listed once");
    set
}

#[test]
fn parses_one_subdomain_per_line() {
    let output = "api.example.com\nwww.example.com\n";

    assert_eq!(
        subdomains(output),
        HashSet::from(["api.example.com".to_string(), "www.example.com".to_string()])
    );
}

#[test]
fn ignores_blank_lines() {
    let output = "api.example.com\n\n\nwww.example.com\n";

    assert_eq!(
        subdomains(output),
        HashSet::from(["api.example.com".to_string(), "www.example.com".to_string()])
    );
}

#[test]
fn dedupes_and_lowercases() {
    let output = "API.example.com\napi.example.com\n";

    assert_eq!(
        subdomains(output),
        HashSet::from(["api.example.com".to_string()])
    );
}

#[test]
fn empty_output_yields_empty_set() {
    assert!(subdomains("").is_empty());
}

#[test]
fn trims_surrounding_whitespace_and_carriage_returns() {
    let output = "  api.example.com \r\n\twww.example.com\r\n   \r\n";

    assert_eq!(
        subdomains(output),
        HashSet::from(["api.example.com".to_string(), "www.example.com".to_string()])
    );
}

#[test]
fn keeps_a_last_line_without_newline() {
    assert_eq!(
        subdomains("a.example.com\nb.example.com"),
        HashSet::from(["a.example.com".to_string(), "b.example.com".to_string()])
    );
}
