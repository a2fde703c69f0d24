//! Chunk urls from vite's `__vite__mapDeps` helper, emitted wherever dynamic
//! imports need their chunk and stylesheet dependencies preloaded:
//!
//! ```text
//! const __vite__mapDeps = (
//!   i,
//!   m = __vite__mapDeps,
//!   d = m.f || (m.f = ["assets/foo-hash.js", "assets/foo-hash.css", ...]),
//! ) => i.map((i) => d[i]);
//! ```
//!
//! The dependency list is the default value of one of the arrow function's
//! parameters, memoized onto the function itself. Matched loosely, by looking
//! through every parameter default for arrays of string literals, but gated on
//! the declared name starting with "__vite__" (vite's own convention, which a
//! minifier does not rename) so that unrelated arrow functions with an
//! array-valued default are not taken. Stylesheets (.css) are left out: only js
//! chunk urls are wanted.

use vstd::prelude::*;
use crate::js::ast::Expr;
use crate::js::buildmanifest::{string_values, string_values_of};
use crate::text::{ends_with, spec_ends_with, spec_starts_with, starts_with, views};

verus! {

/// The string literals of the arrays found in `e`, looking through `||`/`&&`/`??`
/// operands, the value of an assignment, and parentheses.
pub open spec fn spec_find_string_arrays(e: Expr) -> Seq<Seq<char>>
    decreases e,
{
    match e {
        Expr::Array { elements } => string_values(elements@),
        Expr::Logical { left, right } => spec_find_string_arrays(*left) + spec_find_string_arrays(*right),
        Expr::Assignment { right, .. } => spec_find_string_arrays(*right),
        Expr::Parenthesized { expression } => spec_find_string_arrays(*expression),
        _ => Seq::empty(),
    }
}

/// The string-array contents of the parameters' default values, in order.
pub open spec fn param_default_strings(params: Seq<Expr>) -> Seq<Seq<char>>
    decreases params.len(),
{
    if params.len() == 0 {
        Seq::empty()
    } else {
        param_default_strings(params.drop_last()) + match params.last() {
            Expr::Param { initializer: Some(i), .. } => spec_find_string_arrays(*i),
            _ => Seq::empty(),
        }
    }
}

/// `urls` without the stylesheets (those ending in ".css").
pub open spec fn without_stylesheets(urls: Seq<Seq<char>>) -> Seq<Seq<char>>
    decreases urls.len(),
{
    if urls.len() == 0 {
        Seq::empty()
    } else {
        without_stylesheets(urls.drop_last()) + if spec_ends_with(urls.last(), ".css"@) {
            Seq::empty()
        } else {
            seq![urls.last()]
        }
    }
}

/// The js chunk urls of a `const __vite__... = (..., d = ... [..]) => ...` declarator.
pub open spec fn spec_vite_chunk_urls(declarator: Expr) -> Seq<Seq<char>> {
    match declarator {
        Expr::Declarator { binding_name: Some(name), init: Some(init), .. } =>
            if spec_starts_with(name@, "__vite__"@) {
                match *init {
                    Expr::Arrow { params, .. } => without_stylesheets(param_default_strings(params@)),
                    _ => Seq::empty(),
                }
            } else {
                Seq::empty()
            },
        _ => Seq::empty(),
    }
}

/// Appends to `out` the string literals of the arrays found in `e`.
pub fn find_string_arrays(e: &Expr, out: &mut Vec<String>)
    ensures
        views(final(out)@) =~= views(old(out)@) + spec_find_string_arrays(*e),
    decreases e,
{
    match e {
        Expr::Array { elements } => {
            let mut found = string_values_of(elements);
            out.append(&mut found);
        },
        Expr::Logical { left, right } => {
            find_string_arrays(left, out);
            find_string_arrays(right, out);
        },
        Expr::Assignment { right, .. } => find_string_arrays(right, out),
        Expr::Parenthesized { expression } => find_string_arrays(expression, out),
        _ => {},
    }
}

/// Extracts the js chunk urls listed by vite's `__vite__mapDeps` helper.
pub fn vite_chunk_urls(declarator: &Expr) -> (res: Vec<String>)
    ensures
        views(res@) == spec_vite_chunk_urls(*declarator),
{
    let mut out: Vec<String> = Vec::new();
    assert(views(out@) =~= Seq::empty());
    let (name, init) = match declarator {
        Expr::Declarator { binding_name: Some(name), init: Some(init), .. } => (name, init),
        _ => return out,
    };
    if !starts_with(name.as_str(), "__vite__") {
        return out;
    }
    let params = match &**init {
        Expr::Arrow { params, .. } => params,
        _ => return out,
    };
    let mut urls: Vec<String> = Vec::new();
    let mut i: usize = 0;
    while i < params.len()
        invariant
            i <= params.len(),
            views(urls@) == param_default_strings(params@.take(i as int)),
        decreases params.len() - i,
    {
        assert(params@.take(i + 1).drop_last() =~= params@.take(i as int));
        if let Expr::Param { initializer: Some(init), .. } = &params[i] {
            find_string_arrays(init, &mut urls);
        }
        i = i + 1;
    }
    assert(params@.take(params.len() as int) =~= params@);
    let ghost all = views(urls@);
    let mut j: usize = 0;
    while j < urls.len()
        invariant
            j <= urls.len(),
            views(urls@) == all,
            views(out@) == without_stylesheets(all.take(j as int)),
        decreases urls.len() - j,
    {
        assert(all.take(j + 1).drop_last() =~= all.take(j as int));
        let ghost before = views(out@);
        if !ends_with(urls[j].as_str(), ".css") {
            out.push(urls[j].clone());
        }
        assert(views(out@) =~= before + if spec_ends_with(all[j as int], ".css"@) {
            Seq::empty()
        } else {
            seq![all[j as int]]
        });
        j = j + 1;
    }
    assert(all.take(urls.len() as int) =~= all);
    out
}

/// Nothing `without_stylesheets` keeps ends in ".css", and it keeps everything else.
pub proof fn lemma_without_stylesheets(urls: Seq<Seq<char>>)
    ensures
        forall|i: int| 0 <= i < without_stylesheets(urls).len() ==> !spec_ends_with(#[trigger] without_stylesheets(urls)[i], ".css"@),
        forall|u: Seq<char>| urls.contains(u) && !spec_ends_with(u, ".css"@) ==> without_stylesheets(urls).contains(u),
    decreases urls.len(),
{
    if urls.len() > 0 {
        lemma_without_stylesheets(urls.drop_last());
        let rest = without_stylesheets(urls.drop_last());
        assert forall|u: Seq<char>| urls.contains(u) && !spec_ends_with(u, ".css"@) implies without_stylesheets(urls).contains(u) by {
            let k = choose|k: int| 0 <= k < urls.len() && urls[k] == u;
            if k < urls.len() - 1 {
                assert(urls.drop_last()[k] == u);
                assert(urls.drop_last().contains(u));
                assert(rest.contains(u));
                let j = choose|j: int| 0 <= j < rest.len() && rest[j] == u;
                assert(without_stylesheets(urls)[j] == u);
            } else {
                assert(without_stylesheets(urls)[rest.len() as int] == u);
            }
        }
    }
}

/// Vite's dependency map never yields a stylesheet: no url the extractor
/// returns ends in ".css".
pub proof fn lemma_vite_excludes_stylesheets(declarator: Expr)
    ensures
        forall|i: int| 0 <= i < spec_vite_chunk_urls(declarator).len()
            ==> !spec_ends_with(#[trigger] spec_vite_chunk_urls(declarator)[i], ".css"@),
{
    match declarator {
        Expr::Declarator { binding_name: Some(name), init: Some(init), .. } => {
            if let Expr::Arrow { params, .. } = *init {
                lemma_without_stylesheets(param_default_strings(params@));
            }
        },
        _ => {},
    }
}

} // verus!
