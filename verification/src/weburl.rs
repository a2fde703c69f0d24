//! Urls, held as their serialization, and the operations on them that
//! the `url` parser behind `reqwest::Url` computes.

use vstd::prelude::*;
use crate::text::opt_view;

verus! {

/// What `reqwest::Url::join` yields for `input` against the url that `base`
/// parses to, serialized; `None` where `base` does not parse or the join fails.
pub uninterp spec fn spec_url_join(base: Seq<char>, input: Seq<char>) -> Option<Seq<char>>;

/// Calls `reqwest::Url::parse` on `base`, then `Url::join` with `input`, and
/// serializes the joined url. The contract claims only that the result is a
/// function of the two strings.
#[verifier::external_body]
pub fn url_join(base: &str, input: &str) -> (res: Option<String>)
    ensures
        opt_view(res) == spec_url_join(base@, input@),
{
    reqwest::Url::parse(base).ok()?.join(input).ok().map(|u| u.to_string())
}

/// The path of the url that `href` parses to; `None` where it does not parse.
pub uninterp spec fn spec_url_path(href: Seq<char>) -> Option<Seq<char>>;

/// Calls `reqwest::Url::parse` on `href` and returns the parsed url's
/// `Url::path`. The contract claims only that the result is a function of `href`.
#[verifier::external_body]
pub fn url_path(href: &str) -> (res: Option<String>)
    ensures
        opt_view(res) == spec_url_path(href@),
{
    reqwest::Url::parse(href).ok().map(|u| u.path().to_string())
}

/// The host of the url that `href` parses to, as `Url::host_str` gives it;
/// `None` where it does not parse or has no host.
pub uninterp spec fn spec_url_host_str(href: Seq<char>) -> Option<Seq<char>>;

/// Calls `reqwest::Url::parse` on `href` and returns the parsed url's
/// `Url::host_str`. The contract claims only that the result is a function of `href`.
#[verifier::external_body]
pub fn url_host_str(href: &str) -> (res: Option<String>)
    ensures
        opt_view(res) == spec_url_host_str(href@),
{
    reqwest::Url::parse(href).ok()?.host_str().map(|h| h.to_string())
}

/// The query of the url that `href` parses to, as `Url::query` gives it;
/// `None` where it does not parse or has no query.
pub uninterp spec fn spec_url_query(href: Seq<char>) -> Option<Seq<char>>;

/// Calls `reqwest::Url::parse` on `href` and returns the parsed url's
/// `Url::query`. The contract claims only that the result is a function of `href`.
#[verifier::external_body]
pub fn url_query(href: &str) -> (res: Option<String>)
    ensures
        opt_view(res) == spec_url_query(href@),
{
    reqwest::Url::parse(href).ok()?.query().map(|q| q.to_string())
}

/// The domain of the url that `href` parses to, as `Url::domain` gives it
/// (none for an ip address host); `None` where it does not parse.
pub uninterp spec fn spec_url_domain(href: Seq<char>) -> Option<Seq<char>>;

/// Calls `reqwest::Url::parse` on `href` and returns the parsed url's
/// `Url::domain`. The contract claims only that the result is a function of `href`.
#[verifier::external_body]
pub fn url_domain(href: &str) -> (res: Option<String>)
    ensures
        opt_view(res) == spec_url_domain(href@),
{
    reqwest::Url::parse(href).ok()?.domain().map(|d| d.to_string())
}

} // verus!
