//! Http endpoints referenced by request calls: `fetch(url)`,
//! `<anything>.get/post/put/patch/delete/request(url, ...)`,
//! `<anything>.open(method, url)` (XMLHttpRequest) and `$.ajax({url: ...})`.
//! Loose on the receiver for the same reason as the turbopack extractor:
//! minified code can rename the object, while the call shape survives. Only
//! the static content of the url is taken: a string literal, or a template
//! literal's text with a `{}` placeholder per interpolation; no variable is
//! looked up, so a bare identifier or a `+` concatenation gives nothing.

use vstd::prelude::*;
use crate::js::ast::{Expr, Quasi};
use crate::js::turbopack::{key_is, key_matches};
use crate::text::{opt_view, spec_strip_quotes, str_eq, strip_quotes};

verus! {

/// The text of a template segment: with escapes processed where valid, else as written.
pub open spec fn quasi_text(q: Quasi) -> Seq<char> {
    match q.cooked {
        Some(c) => c@,
        None => q.raw@,
    }
}

/// The segments' texts in order, each of the first `n_expressions` followed by `{}`.
pub open spec fn skeleton(quasis: Seq<Quasi>, n_expressions: nat) -> Seq<char>
    decreases quasis.len(),
{
    if quasis.len() == 0 {
        Seq::empty()
    } else {
        skeleton(quasis.drop_last(), n_expressions) + quasi_text(quasis.last())
            + if quasis.len() - 1 < n_expressions { "{}"@ } else { Seq::empty() }
    }
}

/// A template literal's static skeleton, e.g. `${base}/users/${id}` -> "{}/users/{}".
pub open spec fn spec_template_literal_skeleton(t: Expr) -> Seq<char> {
    match t {
        Expr::TemplateLiteral { quasis, expressions } => skeleton(quasis@, expressions@.len()),
        _ => Seq::empty(),
    }
}

/// The static content of a url expression: an unquoted string literal with
/// known source text, a template literal's skeleton, or that of a
/// parenthesized expression.
pub open spec fn spec_url_expression_to_string(e: Expr) -> Option<Seq<char>>
    decreases e,
{
    match e {
        Expr::StringLiteral { raw, .. } => match raw {
            Some(r) => Some(spec_strip_quotes(r@)),
            None => None,
        },
        Expr::TemplateLiteral { .. } => Some(spec_template_literal_skeleton(e)),
        Expr::Parenthesized { expression } => spec_url_expression_to_string(*expression),
        _ => None,
    }
}

/// The static content of a call argument used as a url (a spread gives none).
pub open spec fn spec_argument_url_string(arg: Expr) -> Option<Seq<char>> {
    match arg {
        Expr::StringLiteral { .. } => spec_url_expression_to_string(arg),
        Expr::TemplateLiteral { .. } => spec_url_expression_to_string(arg),
        Expr::Parenthesized { expression } => spec_url_expression_to_string(*expression),
        _ => None,
    }
}

/// The value of the first member named `key` among object members.
pub open spec fn spec_find_property_string(props: Seq<Expr>, key: Seq<char>) -> Option<Expr>
    decreases props.len(),
{
    if props.len() == 0 {
        None
    } else {
        match props[0] {
            Expr::Property { key: k, value } =>
                if key_is(*k, key) {
                    Some(*value)
                } else {
                    spec_find_property_string(props.skip(1), key)
                },
            _ => spec_find_property_string(props.skip(1), key),
        }
    }
}

/// The http client verbs whose first argument is the url.
pub open spec fn is_url_first_arg_method(name: Seq<char>) -> bool {
    name == "get"@ || name == "post"@ || name == "put"@ || name == "patch"@ || name == "delete"@
        || name == "request"@
}

/// The endpoint a request call refers to, if it is one of the recognized call
/// shapes and its url has static content.
pub open spec fn spec_extract_endpoint(call: Expr) -> Option<Seq<char>> {
    match call {
        Expr::Call { callee, arguments } => match *callee {
            Expr::Identifier { name } =>
                if name@ == "fetch"@ && arguments@.len() > 0 {
                    spec_argument_url_string(arguments@[0])
                } else {
                    None
                },
            Expr::StaticMember { property, .. } =>
                if is_url_first_arg_method(property@) {
                    if arguments@.len() > 0 { spec_argument_url_string(arguments@[0]) } else { None }
                } else if property@ == "open"@ {
                    if arguments@.len() > 1 { spec_argument_url_string(arguments@[1]) } else { None }
                } else if property@ == "ajax"@ && arguments@.len() > 0 {
                    match arguments@[0] {
                        Expr::Object { properties } => match spec_find_property_string(properties@, "url"@) {
                            Some(v) => spec_url_expression_to_string(v),
                            None => None,
                        },
                        _ => None,
                    }
                } else {
                    None
                },
            _ => None,
        },
        _ => None,
    }
}

/// Reconstructs a template literal's static skeleton: its text segments
/// interleaved with a "{}" placeholder per interpolated expression.
pub fn template_literal_skeleton(t: &Expr) -> (res: String)
    ensures
        res@ == spec_template_literal_skeleton(*t),
{
    let mut out = String::new();
    if let Expr::TemplateLiteral { quasis, expressions } = t {
        let mut i: usize = 0;
        while i < quasis.len()
            invariant
                i <= quasis.len(),
                out@ == skeleton(quasis@.take(i as int), expressions@.len()),
            decreases quasis.len() - i,
        {
            assert(quasis@.take(i + 1).drop_last() =~= quasis@.take(i as int));
            let q = &quasis[i];
            match &q.cooked {
                Some(c) => out.append(c.as_str()),
                None => out.append(q.raw.as_str()),
            }
            if i < expressions.len() {
                out.append("{}");
            }
            i = i + 1;
        }
        assert(quasis@.take(quasis.len() as int) =~= quasis@);
    }
    out
}

/// Extracts the static content of a url expression passed to a request call.
pub fn url_expression_to_string(e: &Expr) -> (res: Option<String>)
    ensures
        opt_view(res) == spec_url_expression_to_string(*e),
    decreases e,
{
    match e {
        Expr::StringLiteral { raw, .. } => match raw {
            Some(r) => Some(strip_quotes(r.as_str())),
            None => None,
        },
        Expr::TemplateLiteral { .. } => Some(template_literal_skeleton(e)),
        Expr::Parenthesized { expression } => url_expression_to_string(expression),
        _ => None,
    }
}

/// The same as `url_expression_to_string`, for a call argument.
pub fn argument_url_string(arg: &Expr) -> (res: Option<String>)
    ensures
        opt_view(res) == spec_argument_url_string(*arg),
{
    match arg {
        Expr::StringLiteral { .. } | Expr::TemplateLiteral { .. } => url_expression_to_string(arg),
        Expr::Parenthesized { expression } => url_expression_to_string(expression),
        _ => None,
    }
}

/// The value of the first member named `key` of an object literal.
pub fn find_property_string<'a>(properties: &'a Vec<Expr>, key: &str) -> (res: Option<&'a Expr>)
    ensures
        match res {
            Some(v) => spec_find_property_string(properties@, key@) == Some(*v),
            None => spec_find_property_string(properties@, key@) is None,
        },
{
    let mut i: usize = 0;
    assert(properties@.skip(0) =~= properties@);
    while i < properties.len()
        invariant
            i <= properties.len(),
            spec_find_property_string(properties@, key@) == spec_find_property_string(properties@.skip(i as int), key@),
        decreases properties.len() - i,
    {
        assert(properties@.skip(i as int)[0] == properties@[i as int]);
        assert(properties@.skip(i as int).skip(1) =~= properties@.skip(i + 1));
        if let Expr::Property { key: k, value } = &properties[i] {
            if key_matches(k, key) {
                return Some(&**value);
            }
        }
        i = i + 1;
    }
    None
}

/// Whether `name` is one of the http client verbs whose first argument is the url.
fn url_first_arg_method(name: &str) -> (res: bool)
    ensures
        res == is_url_first_arg_method(name@),
{
    str_eq(name, "get") || str_eq(name, "post") || str_eq(name, "put") || str_eq(name, "patch")
        || str_eq(name, "delete") || str_eq(name, "request")
}

/// The endpoint a recognized request call refers to.
pub fn extract_endpoint(call: &Expr) -> (res: Option<String>)
    ensures
        opt_view(res) == spec_extract_endpoint(*call),
{
    let (callee, arguments) = match call {
        Expr::Call { callee, arguments } => (callee, arguments),
        _ => return None,
    };
    match &**callee {
        Expr::Identifier { name } => {
            if str_eq(name.as_str(), "fetch") && arguments.len() > 0 {
                argument_url_string(&arguments[0])
            } else {
                None
            }
        },
        Expr::StaticMember { property, .. } => {
            if url_first_arg_method(property.as_str()) {
                if arguments.len() > 0 { argument_url_string(&arguments[0]) } else { None }
            } else if str_eq(property.as_str(), "open") {
                if arguments.len() > 1 { argument_url_string(&arguments[1]) } else { None }
            } else if str_eq(property.as_str(), "ajax") && arguments.len() > 0 {
                match &arguments[0] {
                    Expr::Object { properties } => match find_property_string(properties, "url") {
                        Some(v) => url_expression_to_string(v),
                        None => None,
                    },
                    _ => None,
                }
            } else {
                None
            }
        },
        _ => None,
    }
}

/// `<anything>.get/post/put/patch/delete/request(<url>, ...)`: whatever the
/// receiver, the endpoint is the static content of the first argument; for a
/// string literal, its unquoted source text.
pub proof fn lemma_url_first_verbs_take_their_first_argument(receiver: Expr, verb: String, arguments: Vec<Expr>)
    requires
        verb@ == "get"@ || verb@ == "post"@ || verb@ == "put"@ || verb@ == "patch"@ || verb@ == "delete"@
            || verb@ == "request"@,
        arguments@.len() > 0,
    ensures
        ({
            let call = Expr::Call {
                callee: Box::new(Expr::StaticMember { object: Box::new(receiver), property: verb }),
                arguments,
            };
            &&& spec_extract_endpoint(call) == spec_argument_url_string(arguments@[0])
            &&& (arguments@[0] matches Expr::StringLiteral { raw: Some(r), .. }
                ==> spec_extract_endpoint(call) == Some(spec_strip_quotes(r@)))
        }),
{
}

/// `fetch(<url>, ...)`: the endpoint is the static content of the first
/// argument; for a string literal, its unquoted source text.
pub proof fn lemma_fetch_takes_its_first_argument(callee: String, arguments: Vec<Expr>)
    requires
        callee@ == "fetch"@,
        arguments@.len() > 0,
    ensures
        ({
            let call = Expr::Call { callee: Box::new(Expr::Identifier { name: callee }), arguments };
            &&& spec_extract_endpoint(call) == spec_argument_url_string(arguments@[0])
            &&& (arguments@[0] matches Expr::StringLiteral { raw: Some(r), .. }
                ==> spec_extract_endpoint(call) == Some(spec_strip_quotes(r@)))
        }),
{
}

/// `<anything>.open(<method>, <url>, ...)` (XMLHttpRequest): the endpoint is
/// the static content of the second argument; for a string literal, its
/// unquoted source text.
pub proof fn lemma_open_takes_its_second_argument(receiver: Expr, verb: String, arguments: Vec<Expr>)
    requires
        verb@ == "open"@,
        arguments@.len() > 1,
    ensures
        ({
            let call = Expr::Call {
                callee: Box::new(Expr::StaticMember { object: Box::new(receiver), property: verb }),
                arguments,
            };
            &&& spec_extract_endpoint(call) == spec_argument_url_string(arguments@[1])
            &&& (arguments@[1] matches Expr::StringLiteral { raw: Some(r), .. }
                ==> spec_extract_endpoint(call) == Some(spec_strip_quotes(r@)))
        }),
{
    reveal_strlit("open");
    reveal_strlit("get");
    reveal_strlit("post");
    reveal_strlit("put");
    reveal_strlit("patch");
    reveal_strlit("delete");
    reveal_strlit("request");
    assert(verb@.len() == 4 && verb@[0] == 'o');
    assert("get"@.len() == 3);
    assert("post"@[0] == 'p' && "put"@[0] == 'p' && "patch"@[0] == 'p');
    assert("delete"@.len() == 6 && "request"@.len() == 7);
    assert(!is_url_first_arg_method(verb@));
}

} // verus!
