//! Chunk urls from next.js's `_buildManifest.js`, which is shaped roughly like
//!
//! ```text
//! self.__BUILD_MANIFEST = function(s, a, e, ...) {
//!   return {
//!     __rewrites: {...},
//!     "/": ["static/chunks/pages/index-hash.js"],
//!     "/admin": [e, "static/chunks/48441-hash.js", "static/chunks/pages/admin-hash.js"],
//!     sortedPages: ["/", "/admin", ...]
//!   }
//! }(<hoisted string constants used as the identifier args above>)
//! ```
//!
//! Each per-route array mixes bare identifiers (references into the function's
//! arguments, not resolved here) with string literals that are chunk paths, so
//! only the string literals are taken. `sortedPages` holds route paths and is
//! skipped; metadata entries whose values are not arrays are skipped naturally.

use vstd::prelude::*;
use crate::js::ast::Expr;
use crate::js::turbopack::{key_is, key_matches};
use crate::js::webpack::first_returned;
use crate::text::{str_eq, views};

verus! {

/// The values of the string literals among `elements`, in order.
pub open spec fn string_values(elements: Seq<Expr>) -> Seq<Seq<char>>
    decreases elements.len(),
{
    if elements.len() == 0 {
        Seq::empty()
    } else {
        string_values(elements.drop_last()) + match elements.last() {
            Expr::StringLiteral { value, .. } => seq![value@],
            _ => Seq::empty(),
        }
    }
}

/// The chunk paths that one member of the manifest object lists: the string
/// literals of its array value, unless it is `sortedPages`.
pub open spec fn manifest_member_chunks(member: Expr) -> Seq<Seq<char>> {
    match member {
        Expr::Property { key, value } =>
            if key_is(*key, "sortedPages"@) {
                Seq::empty()
            } else {
                match *value {
                    Expr::Array { elements } => string_values(elements@),
                    _ => Seq::empty(),
                }
            },
        _ => Seq::empty(),
    }
}

/// The chunk paths listed by the manifest object's members, in order.
pub open spec fn manifest_chunks(members: Seq<Expr>) -> Seq<Seq<char>>
    decreases members.len(),
{
    if members.len() == 0 {
        Seq::empty()
    } else {
        manifest_chunks(members.drop_last()) + manifest_member_chunks(members.last())
    }
}

/// The chunk paths of `self.__BUILD_MANIFEST = function(...) { return {...} }(...)`:
/// those listed by the object that the function returns.
pub open spec fn spec_build_manifest_chunk_urls(target: Expr, call: Expr) -> Seq<Seq<char>> {
    match target {
        Expr::StaticMember { property, .. } =>
            if property@ != "__BUILD_MANIFEST"@ {
                Seq::empty()
            } else {
                match call {
                    Expr::Call { callee, .. } => match *callee {
                        Expr::Function { statements: Some(b), .. } => match first_returned(b@) {
                            Some(Expr::Object { properties }) => manifest_chunks(properties@),
                            _ => Seq::empty(),
                        },
                        _ => Seq::empty(),
                    },
                    _ => Seq::empty(),
                }
            },
        _ => Seq::empty(),
    }
}

/// The values of the string literals among `elements`.
pub fn string_values_of(elements: &Vec<Expr>) -> (res: Vec<String>)
    ensures
        views(res@) == string_values(elements@),
{
    let mut out: Vec<String> = Vec::new();
    let mut i: usize = 0;
    while i < elements.len()
        invariant
            i <= elements.len(),
            views(out@) == string_values(elements@.take(i as int)),
        decreases elements.len() - i,
    {
        assert(elements@.take(i + 1).drop_last() =~= elements@.take(i as int));
        let ghost before = views(out@);
        if let Expr::StringLiteral { value, .. } = &elements[i] {
            out.push(value.clone());
        }
        assert(views(out@) =~= before + match elements@[i as int] {
            Expr::StringLiteral { value, .. } => seq![value@],
            _ => Seq::empty(),
        });
        i = i + 1;
    }
    assert(elements@.take(elements.len() as int) =~= elements@);
    out
}

/// The value of the first `return` with a value among `stmts`.
pub fn first_returned_of(stmts: &Vec<Expr>) -> (res: Option<&Expr>)
    ensures
        match res {
            Some(r) => first_returned(stmts@) == Some(*r),
            None => first_returned(stmts@) is None,
        },
{
    let mut i: usize = 0;
    assert(stmts@.skip(0) =~= stmts@);
    while i < stmts.len()
        invariant
            i <= stmts.len(),
            first_returned(stmts@) == first_returned(stmts@.skip(i as int)),
        decreases stmts.len() - i,
    {
        assert(stmts@.skip(i as int)[0] == stmts@[i as int]);
        assert(stmts@.skip(i as int).skip(1) =~= stmts@.skip(i + 1));
        if let Expr::Return { returned: Some(a) } = &stmts[i] {
            return Some(&**a);
        }
        i = i + 1;
    }
    None
}

/// Extracts the chunk paths of next.js's build manifest from the assignment
/// `target = call`.
pub fn build_manifest_chunk_urls(target: &Expr, call: &Expr) -> (res: Vec<String>)
    ensures
        views(res@) == spec_build_manifest_chunk_urls(*target, *call),
{
    let mut out: Vec<String> = Vec::new();
    assert(views(out@) =~= Seq::empty());
    match target {
        Expr::StaticMember { property, .. } => {
            if !str_eq(property.as_str(), "__BUILD_MANIFEST") {
                return out;
            }
        },
        _ => return out,
    }
    let callee = match call {
        Expr::Call { callee, .. } => callee,
        _ => return out,
    };
    let body = match &**callee {
        Expr::Function { statements: Some(b), .. } => b,
        _ => return out,
    };
    let properties = match first_returned_of(body) {
        Some(Expr::Object { properties }) => properties,
        _ => return out,
    };
    let mut i: usize = 0;
    while i < properties.len()
        invariant
            i <= properties.len(),
            views(out@) == manifest_chunks(properties@.take(i as int)),
        decreases properties.len() - i,
    {
        assert(properties@.take(i + 1).drop_last() =~= properties@.take(i as int));
        let ghost before = views(out@);
        if let Expr::Property { key, value } = &properties[i] {
            if !key_matches(key, "sortedPages") {
                if let Expr::Array { elements } = &**value {
                    let mut found = string_values_of(elements);
                    out.append(&mut found);
                }
            }
        }
        assert(views(out@) =~= before + manifest_member_chunks(properties@[i as int]));
        i = i + 1;
    }
    assert(properties@.take(properties.len() as int) =~= properties@);
    out
}

/// Each string literal among `elements` is among their string values.
proof fn lemma_string_values_hold_each_literal(elements: Seq<Expr>, j: int)
    requires
        0 <= j < elements.len(),
        elements[j] is StringLiteral,
    ensures
        string_values(elements).contains(elements[j]->StringLiteral_value@),
    decreases elements.len(),
{
    let init = elements.drop_last();
    if j < elements.len() - 1 {
        assert(init[j] == elements[j]);
        lemma_string_values_hold_each_literal(init, j);
        let k = choose|k: int| 0 <= k < string_values(init).len() && string_values(init)[k] == elements[j]->StringLiteral_value@;
        assert(string_values(elements)[k] == string_values(init)[k]);
    } else {
        assert(string_values(elements)[string_values(init).len() as int] == elements[j]->StringLiteral_value@);
    }
}

/// What one member lists is among what all the members list.
proof fn lemma_manifest_chunks_hold_each_members(members: Seq<Expr>, i: int, x: Seq<char>)
    requires
        0 <= i < members.len(),
        manifest_member_chunks(members[i]).contains(x),
    ensures
        manifest_chunks(members).contains(x),
    decreases members.len(),
{
    let init = members.drop_last();
    if i < members.len() - 1 {
        assert(init[i] == members[i]);
        lemma_manifest_chunks_hold_each_members(init, i, x);
        let k = choose|k: int| 0 <= k < manifest_chunks(init).len() && manifest_chunks(init)[k] == x;
        assert(manifest_chunks(members)[k] == x);
    } else {
        let k = choose|k: int| 0 <= k < manifest_member_chunks(members[i]).len() && manifest_member_chunks(members[i])[k] == x;
        assert(manifest_chunks(members)[manifest_chunks(init).len() + k] == x);
    }
}

/// In `<x>.__BUILD_MANIFEST = function(...) { ... return {...} }(...)`, every
/// member of the returned object other than `sortedPages` whose value is an
/// array is a route's chunk list: each string literal in it is among the
/// manifest's chunk paths, whatever the route.
pub proof fn lemma_every_route_lists_its_chunks(
    receiver: Expr,
    property: String,
    params: Vec<Expr>,
    statements: Vec<Expr>,
    arguments: Vec<Expr>,
    members: Vec<Expr>,
    i: int,
    key: Expr,
    elements: Vec<Expr>,
    j: int,
    raw: Option<String>,
    value: String,
)
    requires
        property@ == "__BUILD_MANIFEST"@,
        first_returned(statements@) == Some(Expr::Object { properties: members }),
        0 <= i < members@.len(),
        members@[i] == (Expr::Property { key: Box::new(key), value: Box::new(Expr::Array { elements }) }),
        !(key matches Expr::Identifier { name } && name@ == "sortedPages"@),
        !(key matches Expr::StringLiteral { value: v, .. } && v@ == "sortedPages"@),
        0 <= j < elements@.len(),
        elements@[j] == (Expr::StringLiteral { raw, value }),
    ensures
        spec_build_manifest_chunk_urls(
            Expr::StaticMember { object: Box::new(receiver), property },
            Expr::Call {
                callee: Box::new(Expr::Function { params, statements: Some(statements) }),
                arguments,
            },
        ).contains(value@),
{
    assert(!key_is(key, "sortedPages"@));
    assert(manifest_member_chunks(members@[i]) == string_values(elements@));
    lemma_string_values_hold_each_literal(elements@, j);
    lemma_manifest_chunks_hold_each_members(members@, i, value@);
}

} // verus!
