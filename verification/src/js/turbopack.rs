//! Chunk urls from a turbopack chunk-registration call,
//! `<anything>.push([scriptEl, {otherChunks: ["url", ...], ...}])`.
//!
//! Matched loosely on the `otherChunks` array shape alone, rather than requiring
//! the callee to reference a `TURBOPACK` global: property names like
//! `otherChunks` survive minification, while the exact guard expression around
//! the global (`globalThis` vs `self`, differing `||` fallbacks) can vary.

use vstd::prelude::*;
use crate::js::ast::Expr;
use crate::js::webpack::literal_text;
use crate::text::{str_eq, strip_quotes, views};

verus! {

/// `key` names the property `name`: a plain identifier key, or a string-literal
/// key, with that text.
pub open spec fn key_is(key: Expr, name: Seq<char>) -> bool {
    match key {
        Expr::Identifier { name: n } => n@ == name,
        Expr::StringLiteral { value, .. } => value@ == name,
        _ => false,
    }
}

/// Whether `key` names the property `name`.
pub fn key_matches(key: &Expr, name: &str) -> (res: bool)
    ensures
        res == key_is(*key, name@),
{
    match key {
        Expr::Identifier { name: n } => str_eq(n.as_str(), name),
        Expr::StringLiteral { value, .. } => str_eq(value.as_str(), name),
        _ => false,
    }
}

/// The elements of the array value of the first `otherChunks: [...]` property
/// among object members.
pub open spec fn spec_find_other_chunks(props: Seq<Expr>) -> Option<Seq<Expr>>
    decreases props.len(),
{
    if props.len() == 0 {
        None
    } else {
        match props[0] {
            Expr::Property { key, value } => match *value {
                Expr::Array { elements } =>
                    if key_is(*key, "otherChunks"@) {
                        Some(elements@)
                    } else {
                        spec_find_other_chunks(props.skip(1))
                    },
                _ => spec_find_other_chunks(props.skip(1)),
            },
            _ => spec_find_other_chunks(props.skip(1)),
        }
    }
}

/// The `otherChunks` array elements of the first object literal among array
/// elements that has such a property.
pub open spec fn first_other_chunks(elements: Seq<Expr>) -> Option<Seq<Expr>>
    decreases elements.len(),
{
    if elements.len() == 0 {
        None
    } else {
        match elements[0] {
            Expr::Object { properties } => match spec_find_other_chunks(properties@) {
                Some(found) => Some(found),
                None => first_other_chunks(elements.skip(1)),
            },
            _ => first_other_chunks(elements.skip(1)),
        }
    }
}

/// The unquoted source texts of the string literals among `elements`, in order.
pub open spec fn literal_texts(elements: Seq<Expr>) -> Seq<Seq<char>>
    decreases elements.len(),
{
    if elements.len() == 0 {
        Seq::empty()
    } else {
        literal_texts(elements.drop_last()) + match literal_text(elements.last()) {
            Some(t) => seq![t],
            None => Seq::empty(),
        }
    }
}

/// The chunk urls registered by `<anything>.push([..., {otherChunks: [...]}, ...])`:
/// the string literals of that array, unquoted.
pub open spec fn spec_turbopack_chunk_urls(call: Expr) -> Seq<Seq<char>> {
    match call {
        Expr::Call { callee, arguments } => match *callee {
            Expr::StaticMember { property, .. } =>
                if property@ == "push"@ && arguments@.len() > 0 {
                    match arguments@[0] {
                        Expr::Array { elements } => match first_other_chunks(elements@) {
                            Some(chunks) => literal_texts(chunks),
                            None => Seq::empty(),
                        },
                        _ => Seq::empty(),
                    }
                } else {
                    Seq::empty()
                },
            _ => Seq::empty(),
        },
        _ => Seq::empty(),
    }
}

/// The `otherChunks: [...]` array among an object literal's members.
pub fn find_other_chunks(properties: &Vec<Expr>) -> (res: Option<&Vec<Expr>>)
    ensures
        match res {
            Some(v) => spec_find_other_chunks(properties@) == Some(v@),
            None => spec_find_other_chunks(properties@) is None,
        },
{
    let mut i: usize = 0;
    assert(properties@.skip(0) =~= properties@);
    while i < properties.len()
        invariant
            i <= properties.len(),
            spec_find_other_chunks(properties@) == spec_find_other_chunks(properties@.skip(i as int)),
        decreases properties.len() - i,
    {
        assert(properties@.skip(i as int)[0] == properties@[i as int]);
        assert(properties@.skip(i as int).skip(1) =~= properties@.skip(i + 1));
        if let Expr::Property { key, value } = &properties[i] {
            if let Expr::Array { elements } = &**value {
                if key_matches(key, "otherChunks") {
                    return Some(elements);
                }
            }
        }
        i = i + 1;
    }
    None
}

/// The unquoted source texts of the string literals among `elements`.
pub fn literal_texts_of(elements: &Vec<Expr>) -> (res: Vec<String>)
    ensures
        views(res@) == literal_texts(elements@),
{
    let mut out: Vec<String> = Vec::new();
    let mut i: usize = 0;
    while i < elements.len()
        invariant
            i <= elements.len(),
            views(out@) == literal_texts(elements@.take(i as int)),
        decreases elements.len() - i,
    {
        assert(elements@.take(i + 1).drop_last() =~= elements@.take(i as int));
        let ghost before = views(out@);
        if let Expr::StringLiteral { raw: Some(r), .. } = &elements[i] {
            out.push(strip_quotes(r.as_str()));
        }
        assert(views(out@) =~= before + match literal_text(elements@[i as int]) {
            Some(t) => seq![t],
            None => Seq::empty(),
        });
        i = i + 1;
    }
    assert(elements@.take(elements.len() as int) =~= elements@);
    out
}

/// Extracts chunk urls from a turbopack chunk-registration call.
pub fn turbopack_chunk_urls(call: &Expr) -> (res: Vec<String>)
    ensures
        views(res@) == spec_turbopack_chunk_urls(*call),
{
    let none: Vec<String> = Vec::new();
    assert(views(none@) =~= Seq::empty());
    let (callee, arguments) = match call {
        Expr::Call { callee, arguments } => (callee, arguments),
        _ => return none,
    };
    match &**callee {
        Expr::StaticMember { property, .. } => {
            if !str_eq(property.as_str(), "push") || arguments.len() == 0 {
                return none;
            }
        },
        _ => return none,
    }
    let elements = match &arguments[0] {
        Expr::Array { elements } => elements,
        _ => return none,
    };
    let mut i: usize = 0;
    assert(elements@.skip(0) =~= elements@);
    assert(spec_turbopack_chunk_urls(*call) == match first_other_chunks(elements@) {
        Some(chunks) => literal_texts(chunks),
        None => Seq::empty(),
    });
    while i < elements.len()
        invariant
            i <= elements.len(),
            views(none@) == Seq::<Seq<char>>::empty(),
            spec_turbopack_chunk_urls(*call) == match first_other_chunks(elements@) {
                Some(chunks) => literal_texts(chunks),
                None => Seq::empty(),
            },
            first_other_chunks(elements@) == first_other_chunks(elements@.skip(i as int)),
        decreases elements.len() - i,
    {
        assert(elements@.skip(i as int)[0] == elements@[i as int]);
        assert(elements@.skip(i as int).skip(1) =~= elements@.skip(i + 1));
        if let Expr::Object { properties } = &elements[i] {
            if let Some(chunks) = find_other_chunks(properties) {
                return literal_texts_of(chunks);
            }
        }
        i = i + 1;
    }
    none
}

/// Whether an object member is `otherChunks: [...]`, its key written either as
/// a name or as a string literal.
pub open spec fn is_other_chunks_member(member: Expr) -> bool {
    match member {
        Expr::Property { key, value } => (match *key {
            Expr::Identifier { name } => name@ == "otherChunks"@,
            Expr::StringLiteral { value: v, .. } => v@ == "otherChunks"@,
            _ => false,
        }) && *value is Array,
        _ => false,
    }
}

/// The elements of a member's array value.
pub open spec fn member_array_elements(member: Expr) -> Seq<Expr> {
    match member {
        Expr::Property { value, .. } => match *value {
            Expr::Array { elements } => elements@,
            _ => Seq::empty(),
        },
        _ => Seq::empty(),
    }
}

/// The `otherChunks` list is found by the key's name, however the key is
/// written: the first `otherChunks: [...]` member gives its elements, and
/// without such a member there is none.
pub proof fn lemma_other_chunks_found_by_name(props: Seq<Expr>)
    ensures
        (forall|i: int| 0 <= i < props.len() ==> !is_other_chunks_member(#[trigger] props[i]))
            ==> spec_find_other_chunks(props) is None,
        forall|i: int| 0 <= i < props.len() && is_other_chunks_member(#[trigger] props[i])
            && (forall|j: int| 0 <= j < i ==> !is_other_chunks_member(#[trigger] props[j]))
            ==> spec_find_other_chunks(props) == Some(member_array_elements(props[i])),
    decreases props.len(),
{
    if props.len() > 0 {
        let tail = props.skip(1);
        lemma_other_chunks_found_by_name(tail);
        assert forall|i: int| 0 < i < props.len() implies #[trigger] props[i] == tail[i - 1] by {}
        if forall|i: int| 0 <= i < props.len() ==> !is_other_chunks_member(#[trigger] props[i]) {
            assert(!is_other_chunks_member(props[0]));
            assert forall|i: int| 0 <= i < tail.len() implies !is_other_chunks_member(#[trigger] tail[i]) by {
                assert(tail[i] == props[i + 1]);
            }
        }
        assert forall|i: int| 0 <= i < props.len() && is_other_chunks_member(#[trigger] props[i])
            && (forall|j: int| 0 <= j < i ==> !is_other_chunks_member(#[trigger] props[j]))
            implies spec_find_other_chunks(props) == Some(member_array_elements(props[i])) by {
            if i > 0 {
                assert(!is_other_chunks_member(props[0]));
                assert(tail[i - 1] == props[i]);
                assert forall|j: int| 0 <= j < i - 1 implies !is_other_chunks_member(#[trigger] tail[j]) by {
                    assert(tail[j] == props[j + 1]);
                }
            }
        }
    }
}

} // verus!
