//! Recognizes string literals that look like absolute http/https urls, e.g.
//! "https://api.example.com/v1/users". Not tied to any call shape: every
//! string literal that the walk reaches is looked at, so urls kept in plain
//! variables or config objects are found too.

use vstd::prelude::*;
use crate::text::{spec_starts_with, starts_with};

verus! {

/// What follows the `https://` or `http://` scheme at the start of `s`, if any.
pub open spec fn after_scheme(s: Seq<char>) -> Option<Seq<char>> {
    if spec_starts_with(s, "https://"@) {
        Some(s.skip("https://"@.len() as int))
    } else if spec_starts_with(s, "http://"@) {
        Some(s.skip("http://"@.len() as int))
    } else {
        None
    }
}

/// `s` is an absolute http/https url: a non-empty host follows the scheme
/// (what follows does not start with `/`, `?` or `#`).
pub open spec fn spec_is_url(s: Seq<char>) -> bool {
    match after_scheme(s) {
        Some(rest) => rest.len() > 0 && rest[0] != '/' && rest[0] != '?' && rest[0] != '#',
        None => false,
    }
}

/// Whether `s` is an absolute http/https url with a host.
pub fn is_url(s: &str) -> (res: bool)
    ensures
        res == spec_is_url(s@),
{
    let scheme_len = if starts_with(s, "https://") {
        "https://".unicode_len()
    } else if starts_with(s, "http://") {
        "http://".unicode_len()
    } else {
        return false;
    };
    let n = s.unicode_len();
    if scheme_len >= n {
        return false;
    }
    let c = s.get_char(scheme_len);
    assert(s@.skip(scheme_len as int)[0] == c);
    c != '/' && c != '?' && c != '#'
}

} // verus!
