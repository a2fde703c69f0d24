//! Chunk urls from webpack's chunk-filename function, the arrow function
//! assigned to `__webpack_require__.u`, e.g.
//! `c.u = (e) => "static/chunks/" + (6467 === e ? "c07e5374" : e) + "." + {558: "0979…", …}[e] + ".js"`:
//! one url per entry of the id -> hash map, built from the string prefix, the
//! id (or the fragment that a ternary substitutes for one id), the hash and
//! ".js"; plus the full literal paths that leading ternaries hardcode for
//! single chunk ids.

use vstd::prelude::*;
use crate::js::ast::Expr;
use crate::js::fold::nodes;
use crate::text::{opt_view, spec_strip_quotes, strip_quotes, str_eq, views};

verus! {

/// The value of the first `return` with a value among `stmts`.
pub open spec fn first_returned(stmts: Seq<Expr>) -> Option<Expr>
    decreases stmts.len(),
{
    if stmts.len() == 0 {
        None
    } else {
        match stmts[0] {
            Expr::Return { returned: Some(a) } => Some(*a),
            _ => first_returned(stmts.skip(1)),
        }
    }
}

/// The expression an arrow function evaluates to: its expression body, or else
/// the value of the first `return` with a value among its top-level statements.
pub open spec fn spec_arrow_body_expression(arrow: Expr) -> Option<Expr> {
    match arrow {
        Expr::Arrow { is_expression, body, .. } =>
            if is_expression && body@.len() > 0 {
                Some(body@[0])
            } else {
                first_returned(body@)
            },
        _ => None,
    }
}

/// `e` without one layer of parentheses.
pub open spec fn peel(e: Expr) -> Expr {
    match e {
        Expr::Parenthesized { expression } => *expression,
        _ => e,
    }
}

/// The unquoted source text of a string literal, where it is one with known source text.
pub open spec fn literal_text(e: Expr) -> Option<Seq<char>> {
    match e {
        Expr::StringLiteral { raw: Some(r), .. } => Some(spec_strip_quotes(r@)),
        _ => None,
    }
}

/// Peels leading `<id> === e ? "<full literal path>" : <rest>` ternaries off `e`
/// (each possibly parenthesized): what remains, and the literal paths, in order.
pub open spec fn spec_unwrap_literal_chunk_override(e: Expr) -> (Expr, Seq<Seq<char>>)
    decreases e,
{
    match e {
        Expr::Parenthesized { expression } => match *expression {
            Expr::Conditional { consequent, alternate, .. } => match *consequent {
                Expr::StringLiteral { raw, .. } => {
                    let (rest, lits) = spec_unwrap_literal_chunk_override(*alternate);
                    (rest, match raw { Some(r) => seq![spec_strip_quotes(r@)] + lits, None => lits })
                },
                _ => (*expression, Seq::empty()),
            },
            _ => (*expression, Seq::empty()),
        },
        Expr::Conditional { consequent, alternate, .. } => match *consequent {
            Expr::StringLiteral { raw, .. } => {
                let (rest, lits) = spec_unwrap_literal_chunk_override(*alternate);
                (rest, match raw { Some(r) => seq![spec_strip_quotes(r@)] + lits, None => lits })
            },
            _ => (e, Seq::empty()),
        },
        _ => (e, Seq::empty()),
    }
}

/// The operands of a `+` chain, in source order; any other expression is its own
/// single operand.
pub open spec fn spec_flatten_binary_plus_chain(e: Expr) -> Seq<Expr>
    decreases e,
{
    match e {
        Expr::Binary { addition: true, left, right } =>
            spec_flatten_binary_plus_chain(*left) + spec_flatten_binary_plus_chain(*right),
        _ => seq![e],
    }
}

/// The raw text of a numeric literal, where known.
pub open spec fn numeric_raw(e: Expr) -> Option<Seq<char>> {
    match e {
        Expr::NumericLiteral { raw: Some(r), .. } => Some(r@),
        _ => None,
    }
}

/// For `<id> === e ? <fragment> : e`: the chunk id (the raw text of the first
/// numeric-literal side of the comparison) and the fragment substituted for it
/// (the unquoted string consequent, else empty). A test that is not a
/// comparison gives no id and an empty fragment.
pub open spec fn spec_conditional_override(c: Expr) -> (Option<Seq<char>>, Seq<char>) {
    match c {
        Expr::Conditional { test, consequent, .. } => match *test {
            Expr::Binary { left, right, .. } => (
                match numeric_raw(*left) {
                    Some(r) => Some(r),
                    None => numeric_raw(*right),
                },
                match literal_text(*consequent) {
                    Some(t) => t,
                    None => Seq::empty(),
                },
            ),
            _ => (None, Seq::empty()),
        },
        _ => (None, Seq::empty()),
    }
}

/// The `<numeric id>: "<hash>"` entries among object members, in order: each id
/// as its rounded decimal value, each hash unquoted.
pub open spec fn id_hash_pairs(props: Seq<Expr>) -> Seq<(Seq<char>, Seq<char>)>
    decreases props.len(),
{
    if props.len() == 0 {
        Seq::empty()
    } else {
        id_hash_pairs(props.drop_last()) + match props.last() {
            Expr::Property { key, value } => match (*key, *value) {
                (Expr::NumericLiteral { rounded, .. }, Expr::StringLiteral { raw: Some(v), .. }) =>
                    seq![(rounded@, spec_strip_quotes(v@))],
                _ => Seq::empty(),
            },
            _ => Seq::empty(),
        }
    }
}

/// The id -> hash entries of the (possibly parenthesized) object literal that
/// `{...}[e]` indexes.
pub open spec fn spec_object_props(computed: Expr) -> Seq<(Seq<char>, Seq<char>)> {
    match computed {
        Expr::ComputedMember { object, .. } => match peel(*object) {
            Expr::Object { properties } => id_hash_pairs(properties@),
            _ => Seq::empty(),
        },
        _ => Seq::empty(),
    }
}

/// The filename prefix an operand sets: an unquoted string literal other than
/// "." and ".js".
pub open spec fn operand_prefix(e: Expr) -> Option<Seq<char>> {
    match literal_text(e) {
        Some(t) => if t != "."@ && t != ".js"@ { Some(t) } else { None },
        None => None,
    }
}

/// The ternary an operand is, possibly parenthesized.
pub open spec fn operand_conditional(e: Expr) -> Option<Expr> {
    match e {
        Expr::Conditional { .. } => Some(e),
        Expr::Parenthesized { expression } => match *expression {
            Expr::Conditional { .. } => Some(*expression),
            _ => None,
        },
        _ => None,
    }
}

/// The prefix set by the last operand that sets one; empty where none does.
pub open spec fn last_prefix(ops: Seq<Expr>) -> Seq<char>
    decreases ops.len(),
{
    if ops.len() == 0 {
        Seq::empty()
    } else {
        match operand_prefix(ops.last()) {
            Some(p) => p,
            None => last_prefix(ops.drop_last()),
        }
    }
}

/// The id override read from the last ternary operand; none and an empty
/// fragment where there is no ternary operand.
pub open spec fn last_override(ops: Seq<Expr>) -> (Option<Seq<char>>, Seq<char>)
    decreases ops.len(),
{
    if ops.len() == 0 {
        (None, Seq::empty())
    } else {
        match operand_conditional(ops.last()) {
            Some(c) => spec_conditional_override(c),
            None => last_override(ops.drop_last()),
        }
    }
}

/// The id -> hash entries read from the last `{...}[e]` operand; none where
/// there is no such operand.
pub open spec fn last_props(ops: Seq<Expr>) -> Seq<(Seq<char>, Seq<char>)>
    decreases ops.len(),
{
    if ops.len() == 0 {
        Seq::empty()
    } else {
        match ops.last() {
            Expr::ComputedMember { .. } => spec_object_props(ops.last()),
            _ => last_props(ops.drop_last()),
        }
    }
}

/// `<prefix><id or its override fragment>.<hash>.js`
pub open spec fn chunk_url(
    prefix: Seq<char>,
    override_id: Option<Seq<char>>,
    fragment: Seq<char>,
    entry: (Seq<char>, Seq<char>),
) -> Seq<char> {
    let id_part = if override_id == Some(entry.0) { fragment } else { entry.0 };
    prefix + id_part + "."@ + entry.1 + ".js"@
}

/// The chunk urls that webpack's chunk-filename arrow function builds: one per
/// map entry, in map order, then the hardcoded literal paths.
pub open spec fn spec_chunk_urls(arrow: Expr) -> Seq<Seq<char>> {
    match spec_arrow_body_expression(arrow) {
        None => Seq::empty(),
        Some(body) => {
            let (rest, literals) = spec_unwrap_literal_chunk_override(body);
            let ops = spec_flatten_binary_plus_chain(rest);
            let prefix = last_prefix(ops);
            let (override_id, fragment) = last_override(ops);
            last_props(ops).map_values(|entry: (Seq<char>, Seq<char>)| chunk_url(prefix, override_id, fragment, entry))
                + literals
        },
    }
}

} // verus!

verus! {

/// The node that an optional reference points to.
pub open spec fn opt_node(o: Option<&Expr>) -> Option<Expr> {
    match o {
        Some(r) => Some(*r),
        None => None,
    }
}

/// The texts of a sequence of string pairs.
pub open spec fn pair_views(v: Seq<(String, String)>) -> Seq<(Seq<char>, Seq<char>)> {
    v.map_values(|p: (String, String)| (p.0@, p.1@))
}

/// The expression an arrow function evaluates to, if any.
pub fn arrow_body_expression<'a>(arrow: &'a Expr) -> (res: Option<&'a Expr>)
    ensures
        opt_node(res) == spec_arrow_body_expression(*arrow),
{
    match arrow {
        Expr::Arrow { is_expression, body, .. } => {
            if *is_expression && body.len() > 0 {
                return Some(&body[0]);
            }
            let mut i: usize = 0;
            assert(body@.skip(0) =~= body@);
            while i < body.len()
                invariant
                    i <= body.len(),
                    first_returned(body@) == first_returned(body@.skip(i as int)),
                    !(*is_expression && body@.len() > 0),
                    spec_arrow_body_expression(*arrow) == first_returned(body@),
                decreases body.len() - i,
            {
                assert(body@.skip(i as int)[0] == body@[i as int]);
                assert(body@.skip(i as int).skip(1) =~= body@.skip(i + 1));
                if let Expr::Return { returned: Some(a) } = &body[i] {
                    return Some(&**a);
                }
                i = i + 1;
            }
            None
        },
        _ => None,
    }
}

/// Peels leading literal-path ternaries off `e`, appending each literal path
/// (unquoted) to `out`, and returns the remaining expression.
pub fn unwrap_literal_chunk_override<'a>(e: &'a Expr, out: &mut Vec<String>) -> (res: &'a Expr)
    ensures
        *res == spec_unwrap_literal_chunk_override(*e).0,
        views(final(out)@) == views(old(out)@) + spec_unwrap_literal_chunk_override(*e).1,
    decreases e,
{
    match e {
        Expr::Parenthesized { expression } => match &**expression {
            Expr::Conditional { consequent, alternate, .. } => match &**consequent {
                Expr::StringLiteral { raw, .. } => {
                    let ghost before = views(out@);
                    if let Some(r) = raw {
                        out.push(strip_quotes(r.as_str()));
                    }
                    let res = unwrap_literal_chunk_override(alternate, out);
                    assert(views(out@) =~= before + spec_unwrap_literal_chunk_override(*e).1);
                    res
                },
                _ => expression,
            },
            _ => expression,
        },
        Expr::Conditional { consequent, alternate, .. } => match &**consequent {
            Expr::StringLiteral { raw, .. } => {
                let ghost before = views(out@);
                if let Some(r) = raw {
                    out.push(strip_quotes(r.as_str()));
                }
                let res = unwrap_literal_chunk_override(alternate, out);
                assert(views(out@) =~= before + spec_unwrap_literal_chunk_override(*e).1);
                res
            },
            _ => e,
        },
        _ => {
            assert(views(out@) =~= views(out@) + Seq::<Seq<char>>::empty());
            e
        },
    }
}

/// Appends the operands of the `+` chain `e` to `out`, in source order.
pub fn flatten_binary_plus_chain<'a>(e: &'a Expr, out: &mut Vec<&'a Expr>)
    ensures
        nodes(final(out)@) =~= nodes(old(out)@) + spec_flatten_binary_plus_chain(*e),
    decreases e,
{
    if let Expr::Binary { addition: true, left, right } = e {
        flatten_binary_plus_chain(left, out);
        flatten_binary_plus_chain(right, out);
        return;
    }
    out.push(e);
}

/// The unquoted source text of a string literal with known source text.
fn literal_text_of(e: &Expr) -> (res: Option<String>)
    ensures
        opt_view_eq(res, literal_text(*e)),
{
    match e {
        Expr::StringLiteral { raw: Some(r), .. } => Some(strip_quotes(r.as_str())),
        _ => None,
    }
}

/// `o` holds the text `t` holds.
pub open spec fn opt_view_eq(o: Option<String>, t: Option<Seq<char>>) -> bool {
    match o {
        Some(s) => t == Some(s@),
        None => t is None,
    }
}

/// The raw text of a numeric literal, where known.
fn numeric_raw_of(e: &Expr) -> (res: Option<String>)
    ensures
        opt_view_eq(res, numeric_raw(*e)),
{
    match e {
        Expr::NumericLiteral { raw: Some(r), .. } => Some(r.clone()),
        _ => None,
    }
}

/// For a ternary `<id> === e ? <fragment> : e`: the overridden chunk id and the
/// fragment substituted for it.
pub fn conditional_override(c: &Expr) -> (res: (Option<String>, String))
    ensures
        opt_view_eq(res.0, spec_conditional_override(*c).0),
        res.1@ == spec_conditional_override(*c).1,
{
    match c {
        Expr::Conditional { test, consequent, .. } => match &**test {
            Expr::Binary { left, right, .. } => {
                let id = match numeric_raw_of(left) {
                    Some(r) => Some(r),
                    None => numeric_raw_of(right),
                };
                let fragment = match literal_text_of(consequent) {
                    Some(t) => t,
                    None => String::new(),
                };
                (id, fragment)
            },
            _ => (None, String::new()),
        },
        _ => (None, String::new()),
    }
}

/// The id -> hash entries of the object literal that `{...}[e]` indexes.
pub fn object_props(computed: &Expr) -> (res: Vec<(String, String)>)
    ensures
        pair_views(res@) == spec_object_props(*computed),
{
    let mut out: Vec<(String, String)> = Vec::new();
    let object: &Expr = match computed {
        Expr::ComputedMember { object, .. } => match &**object {
            Expr::Parenthesized { expression } => expression,
            other => other,
        },
        _ => {
            assert(pair_views(out@) =~= Seq::empty());
            return out;
        },
    };
    if let Expr::Object { properties } = object {
        let mut i: usize = 0;
        while i < properties.len()
            invariant
                i <= properties.len(),
                pair_views(out@) == id_hash_pairs(properties@.take(i as int)),
            decreases properties.len() - i,
        {
            assert(properties@.take(i + 1).drop_last() =~= properties@.take(i as int));
            let ghost before = out@;
            if let Expr::Property { key, value } = &properties[i] {
                if let (Expr::NumericLiteral { rounded, .. }, Expr::StringLiteral { raw: Some(v), .. }) = (&**key, &**value) {
                    out.push((rounded.clone(), strip_quotes(v.as_str())));
                }
            }
            assert(pair_views(out@) =~= pair_views(before) + match properties@[i as int] {
                Expr::Property { key, value } => match (*key, *value) {
                    (Expr::NumericLiteral { rounded, .. }, Expr::StringLiteral { raw: Some(v), .. }) =>
                        seq![(rounded@, spec_strip_quotes(v@))],
                    _ => Seq::empty(),
                },
                _ => Seq::empty(),
            });
            i = i + 1;
        }
        assert(properties@.take(properties.len() as int) =~= properties@);
    } else {
        assert(pair_views(out@) =~= Seq::empty());
    }
    out
}

/// `<prefix><id or its override fragment>.<hash>.js`
fn build_chunk_url(prefix: &String, override_id: &Option<String>, fragment: &String, id: &String, hash: &String) -> (res: String)
    ensures
        res@ == chunk_url(prefix@, opt_view(*override_id), fragment@, (id@, hash@)),
{
    let overridden = match override_id {
        Some(o) => str_eq(o.as_str(), id.as_str()),
        None => false,
    };
    let mut url = prefix.clone();
    if overridden {
        url.append(fragment.as_str());
    } else {
        url.append(id.as_str());
    }
    url.append(".");
    url.append(hash.as_str());
    url.append(".js");
    url
}

/// The chunk urls that webpack's chunk-filename arrow function builds: one per
/// entry of its id -> hash map, then the literal paths hardcoded for single ids.
pub fn chunk_urls(arrow: &Expr) -> (res: Vec<String>)
    ensures
        views(res@) == spec_chunk_urls(*arrow),
{
    let body = match arrow_body_expression(arrow) {
        Some(b) => b,
        None => {
            let none: Vec<String> = Vec::new();
            assert(views(none@) =~= Seq::empty());
            return none;
        },
    };
    let mut literal_urls: Vec<String> = Vec::new();
    let rest = unwrap_literal_chunk_override(body, &mut literal_urls);
    assert(views(literal_urls@) =~= spec_unwrap_literal_chunk_override(*body).1);
    let mut flattened: Vec<&Expr> = Vec::new();
    flatten_binary_plus_chain(rest, &mut flattened);
    let ghost ops = spec_flatten_binary_plus_chain(*rest);
    assert(nodes(flattened@) =~= ops);

    let mut prefix = String::new();
    let mut override_id: Option<String> = None;
    let mut fragment = String::new();
    let mut props: Vec<(String, String)> = Vec::new();
    let mut i: usize = 0;
    while i < flattened.len()
        invariant
            i <= flattened.len(),
            nodes(flattened@) == ops,
            prefix@ == last_prefix(ops.take(i as int)),
            opt_view(override_id) == last_override(ops.take(i as int)).0,
            fragment@ == last_override(ops.take(i as int)).1,
            pair_views(props@) == last_props(ops.take(i as int)),
        decreases flattened.len() - i,
    {
        let op: &Expr = flattened[i];
        assert(ops.take(i + 1).drop_last() =~= ops.take(i as int));
        assert(ops.take(i + 1).last() == *op);
        match op {
            Expr::StringLiteral { raw: Some(r), .. } => {
                let t = strip_quotes(r.as_str());
                if !str_eq(t.as_str(), ".") && !str_eq(t.as_str(), ".js") {
                    prefix = t;
                }
            },
            Expr::Conditional { .. } => {
                let (o, f) = conditional_override(op);
                override_id = o;
                fragment = f;
            },
            Expr::Parenthesized { expression } => {
                if let Expr::Conditional { .. } = &**expression {
                    let (o, f) = conditional_override(expression);
                    override_id = o;
                    fragment = f;
                }
            },
            Expr::ComputedMember { .. } => {
                props = object_props(op);
            },
            _ => {},
        }
        i = i + 1;
    }
    assert(ops.take(flattened.len() as int) =~= ops);

    let mut urls: Vec<String> = Vec::new();
    let ghost mapped = last_props(ops).map_values(
        |entry: (Seq<char>, Seq<char>)| chunk_url(prefix@, opt_view(override_id), fragment@, entry),
    );
    let mut j: usize = 0;
    while j < props.len()
        invariant
            j <= props.len(),
            pair_views(props@) == last_props(ops),
            mapped == last_props(ops).map_values(
                |entry: (Seq<char>, Seq<char>)| chunk_url(prefix@, opt_view(override_id), fragment@, entry),
            ),
            views(urls@) =~= mapped.take(j as int),
        decreases props.len() - j,
    {
        let url = build_chunk_url(&prefix, &override_id, &fragment, &props[j].0, &props[j].1);
        assert(pair_views(props@)[j as int] == (props@[j as int].0@, props@[j as int].1@));
        urls.push(url);
        assert(mapped.take(j + 1) =~= mapped.take(j as int).push(url@));
        j = j + 1;
    }
    assert(mapped.take(props.len() as int) =~= mapped);
    let ghost u = views(urls@);
    let ghost l = views(literal_urls@);
    urls.append(&mut literal_urls);
    assert(views(urls@) =~= u + l);
    urls
}

/// One url per entry of the id -> hash map, plus one per hardcoded literal
/// path: with an 87-entry map and one literal override, 88 urls.
pub proof fn lemma_one_url_per_map_entry(arrow: Expr)
    ensures
        spec_chunk_urls(arrow).len() == match spec_arrow_body_expression(arrow) {
            None => 0,
            Some(body) => last_props(spec_flatten_binary_plus_chain(spec_unwrap_literal_chunk_override(body).0)).len()
                + spec_unwrap_literal_chunk_override(body).1.len(),
        },
{
}

/// What peeling leaves is never itself a `<test> ? "<literal>" : <rest>`
/// ternary: every leading literal-path ternary is peeled off.
pub proof fn lemma_peeling_leaves_no_literal_path_ternary(e: Expr)
    ensures
        !(spec_unwrap_literal_chunk_override(e).0 matches Expr::Conditional { consequent, .. }
            && *consequent matches Expr::StringLiteral { .. }),
    decreases e,
{
    match e {
        Expr::Parenthesized { expression } => match *expression {
            Expr::Conditional { consequent, alternate, .. } => match *consequent {
                Expr::StringLiteral { .. } => lemma_peeling_leaves_no_literal_path_ternary(*alternate),
                _ => {},
            },
            _ => {},
        },
        Expr::Conditional { consequent, alternate, .. } => match *consequent {
            Expr::StringLiteral { .. } => lemma_peeling_leaves_no_literal_path_ternary(*alternate),
            _ => {},
        },
        _ => {},
    }
}

/// A chunk-filename function whose body is `<test> ? "<path>" : <rest>` gives
/// the chunk urls of the same function with body `<rest>`, and the literal path
/// besides: peeling one hardcoded path neither loses nor adds any other url.
pub proof fn lemma_literal_path_ternary_adds_its_path(
    outer: Expr,
    inner: Expr,
    test: Expr,
    raw: String,
    value: String,
    rest: Expr,
)
    requires
        spec_arrow_body_expression(outer) == Some(Expr::Conditional {
            test: Box::new(test),
            consequent: Box::new(Expr::StringLiteral { raw: Some(raw), value }),
            alternate: Box::new(rest),
        }),
        spec_arrow_body_expression(inner) == Some(rest),
    ensures
        spec_chunk_urls(outer).len() == spec_chunk_urls(inner).len() + 1,
        spec_chunk_urls(outer).to_set() == spec_chunk_urls(inner).to_set().insert(spec_strip_quotes(raw@)),
{
    let (left, lits) = spec_unwrap_literal_chunk_override(rest);
    let ops = spec_flatten_binary_plus_chain(left);
    let prefix = last_prefix(ops);
    let (override_id, fragment) = last_override(ops);
    let mapped = last_props(ops).map_values(
        |entry: (Seq<char>, Seq<char>)| chunk_url(prefix, override_id, fragment, entry),
    );
    let p = spec_strip_quotes(raw@);
    assert(spec_chunk_urls(outer) == mapped + (seq![p] + lits));
    assert(spec_chunk_urls(inner) == mapped + lits);
    assert forall|x: Seq<char>| spec_chunk_urls(outer).to_set().contains(x)
        <==> spec_chunk_urls(inner).to_set().insert(p).contains(x) by {
        if spec_chunk_urls(outer).contains(x) {
            let i = choose|i: int| 0 <= i < spec_chunk_urls(outer).len() && spec_chunk_urls(outer)[i] == x;
            if i < mapped.len() {
                assert(spec_chunk_urls(inner)[i] == x);
            } else if i > mapped.len() {
                assert(spec_chunk_urls(inner)[i - 1] == x);
            }
        }
        if spec_chunk_urls(inner).contains(x) {
            let i = choose|i: int| 0 <= i < spec_chunk_urls(inner).len() && spec_chunk_urls(inner)[i] == x;
            if i < mapped.len() {
                assert(spec_chunk_urls(outer)[i] == x);
            } else {
                assert(spec_chunk_urls(outer)[i + 1] == x);
            }
        }
        if x == p {
            assert(spec_chunk_urls(outer)[mapped.len() as int] == p);
        }
    }
    assert(spec_chunk_urls(outer).to_set() =~= spec_chunk_urls(inner).to_set().insert(p));
}

/// The same for a parenthesized `(<test> ? "<path>" : <rest>)` body.
pub proof fn lemma_parenthesized_literal_path_ternary_adds_its_path(
    outer: Expr,
    inner: Expr,
    test: Expr,
    raw: String,
    value: String,
    rest: Expr,
)
    requires
        spec_arrow_body_expression(outer) == Some(Expr::Parenthesized {
            expression: Box::new(Expr::Conditional {
                test: Box::new(test),
                consequent: Box::new(Expr::StringLiteral { raw: Some(raw), value }),
                alternate: Box::new(rest),
            }),
        }),
        spec_arrow_body_expression(inner) == Some(rest),
    ensures
        spec_chunk_urls(outer).len() == spec_chunk_urls(inner).len() + 1,
        spec_chunk_urls(outer).to_set() == spec_chunk_urls(inner).to_set().insert(spec_strip_quotes(raw@)),
{
    let (left, lits) = spec_unwrap_literal_chunk_override(rest);
    let ops = spec_flatten_binary_plus_chain(left);
    let prefix = last_prefix(ops);
    let (override_id, fragment) = last_override(ops);
    let mapped = last_props(ops).map_values(
        |entry: (Seq<char>, Seq<char>)| chunk_url(prefix, override_id, fragment, entry),
    );
    let p = spec_strip_quotes(raw@);
    assert(spec_chunk_urls(outer) == mapped + (seq![p] + lits));
    assert(spec_chunk_urls(inner) == mapped + lits);
    assert forall|x: Seq<char>| spec_chunk_urls(outer).to_set().contains(x)
        <==> spec_chunk_urls(inner).to_set().insert(p).contains(x) by {
        if spec_chunk_urls(outer).contains(x) {
            let i = choose|i: int| 0 <= i < spec_chunk_urls(outer).len() && spec_chunk_urls(outer)[i] == x;
            if i < mapped.len() {
                assert(spec_chunk_urls(inner)[i] == x);
            } else if i > mapped.len() {
                assert(spec_chunk_urls(inner)[i - 1] == x);
            }
        }
        if spec_chunk_urls(inner).contains(x) {
            let i = choose|i: int| 0 <= i < spec_chunk_urls(inner).len() && spec_chunk_urls(inner)[i] == x;
            if i < mapped.len() {
                assert(spec_chunk_urls(outer)[i] == x);
            } else {
                assert(spec_chunk_urls(outer)[i + 1] == x);
            }
        }
        if x == p {
            assert(spec_chunk_urls(outer)[mapped.len() as int] == p);
        }
    }
    assert(spec_chunk_urls(outer).to_set() =~= spec_chunk_urls(inner).to_set().insert(p));
}

} // verus!
