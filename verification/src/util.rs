//! Resolution of a source url found on a page against the crawled domain.

use vstd::prelude::*;
use crate::weburl::{spec_url_host_str, spec_url_join, spec_url_path, spec_url_query, url_host_str, url_join, url_path, url_query};

verus! {

/// A url that could not be parsed or resolved.
pub enum UrlError {
    Invalid,
}

/// The host and the path (with `?` and the query where there is one) of `src`
/// resolved against `https://<domain>`; the host is `domain` where the
/// resolved url has none. `None` where `https://<domain>` does not parse or
/// the join fails.
pub open spec fn spec_resolve_source_url(domain: Seq<char>, src: Seq<char>) -> Option<(Seq<char>, Seq<char>)> {
    match spec_url_join("https://"@ + domain, src) {
        None => None,
        Some(resolved) => Some((
            match spec_url_host_str(resolved) {
                Some(h) => h,
                None => domain,
            },
            match spec_url_path(resolved) {
                Some(p) => p,
                None => Seq::empty(),
            } + match spec_url_query(resolved) {
                Some(q) => "?"@ + q,
                None => Seq::empty(),
            },
        )),
    }
}

/// Resolves a source url found on a page (relative, root-relative,
/// protocol-relative or absolute) against the crawled domain, returning the
/// resolved host and the path (with its query string, if any) on that host;
/// callers decide whether to keep it by whether the host is the crawled domain.
pub fn resolve_source_url(domain: &str, src: &str) -> (res: Result<(String, String), UrlError>)
    ensures
        match res {
            Ok((host, path)) => spec_resolve_source_url(domain@, src@) == Some((host@, path@)),
            Err(_) => spec_resolve_source_url(domain@, src@) is None,
        },
{
    let mut base = String::from_str("https://");
    base.append(domain);
    let resolved = match url_join(base.as_str(), src) {
        Some(r) => r,
        None => return Err(UrlError::Invalid),
    };
    let host = match url_host_str(resolved.as_str()) {
        Some(h) => h,
        None => domain.to_string(),
    };
    let mut path = match url_path(resolved.as_str()) {
        Some(p) => p,
        None => String::new(),
    };
    if let Some(query) = url_query(resolved.as_str()) {
        path.append("?");
        path.append(query.as_str());
    }
    Ok((host, path))
}

} // verus!
