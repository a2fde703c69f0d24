//! The pre-order walk over a program that every extractor shares.

use vstd::prelude::*;
use crate::js::ast::Expr;

verus! {

/// The nodes that a walk from `e` reaches, in pre-order: `e` itself and, unless
/// `e` is an assignment and the walk does not enter assignments, the nodes
/// reached from each of its children in source order.
pub open spec fn walk(e: Expr, into_assignments: bool) -> Seq<Expr>
    decreases e,
{
    seq![e] + if e is Assignment && !into_assignments {
        Seq::empty()
    } else {
        match e {
            Expr::TemplateLiteral { expressions, .. } => walk_list(expressions@, into_assignments),
            Expr::StaticMember { object, .. } => walk(*object, into_assignments),
            Expr::ComputedMember { object, expression } =>
                walk(*object, into_assignments) + walk(*expression, into_assignments),
            Expr::Call { callee, arguments } =>
                walk(*callee, into_assignments) + walk_list(arguments@, into_assignments),
            Expr::Binary { left, right, .. } =>
                walk(*left, into_assignments) + walk(*right, into_assignments),
            Expr::Logical { left, right } =>
                walk(*left, into_assignments) + walk(*right, into_assignments),
            Expr::Conditional { test, consequent, alternate } =>
                walk(*test, into_assignments) + walk(*consequent, into_assignments)
                    + walk(*alternate, into_assignments),
            Expr::Parenthesized { expression } => walk(*expression, into_assignments),
            Expr::Object { properties } => walk_list(properties@, into_assignments),
            Expr::Property { key, value } =>
                walk(*key, into_assignments) + walk(*value, into_assignments),
            Expr::Array { elements } => walk_list(elements@, into_assignments),
            Expr::Arrow { params, body, .. } =>
                walk_list(params@, into_assignments) + walk_list(body@, into_assignments),
            Expr::Function { params, statements } =>
                walk_list(params@, into_assignments) + match statements {
                    Some(b) => walk_list(b@, into_assignments),
                    None => Seq::empty(),
                },
            Expr::Param { pattern, initializer } =>
                walk(*pattern, into_assignments) + match initializer {
                    Some(i) => walk(*i, into_assignments),
                    None => Seq::empty(),
                },
            Expr::Assignment { target, right } =>
                walk(*target, into_assignments) + walk(*right, into_assignments),
            Expr::Return { returned } => match returned {
                Some(a) => walk(*a, into_assignments),
                None => Seq::empty(),
            },
            Expr::Declarator { pattern, init, .. } =>
                walk(*pattern, into_assignments) + match init {
                    Some(i) => walk(*i, into_assignments),
                    None => Seq::empty(),
                },
            Expr::Spread { argument } => walk(*argument, into_assignments),
            Expr::Other { children } => walk_list(children@, into_assignments),
            _ => Seq::empty(),
        }
    }
}

/// `walk` from each of `es` in turn, concatenated.
pub open spec fn walk_list(es: Seq<Expr>, into_assignments: bool) -> Seq<Expr>
    decreases es,
{
    if es.len() == 0 {
        Seq::empty()
    } else {
        walk_list(es.drop_last(), into_assignments) + walk(es.last(), into_assignments)
    }
}

/// The nodes that a sequence of references points to.
pub open spec fn nodes(s: Seq<&Expr>) -> Seq<Expr> {
    s.map_values(|r: &Expr| *r)
}

/// Appends to `out` the nodes that a walk from `e` reaches, in pre-order.
pub fn collect_nodes<'a>(e: &'a Expr, into_assignments: bool, out: &mut Vec<&'a Expr>)
    ensures
        nodes(final(out)@) =~= nodes(old(out)@) + walk(*e, into_assignments),
    decreases e,
{
    out.push(e);
    match e {
        Expr::TemplateLiteral { expressions, .. } => collect_list(expressions, into_assignments, out),
        Expr::StaticMember { object, .. } => collect_nodes(object, into_assignments, out),
        Expr::ComputedMember { object, expression } => {
            collect_nodes(object, into_assignments, out);
            collect_nodes(expression, into_assignments, out);
        },
        Expr::Call { callee, arguments } => {
            collect_nodes(callee, into_assignments, out);
            collect_list(arguments, into_assignments, out);
        },
        Expr::Binary { left, right, .. } | Expr::Logical { left, right } => {
            collect_nodes(left, into_assignments, out);
            collect_nodes(right, into_assignments, out);
        },
        Expr::Conditional { test, consequent, alternate } => {
            collect_nodes(test, into_assignments, out);
            collect_nodes(consequent, into_assignments, out);
            collect_nodes(alternate, into_assignments, out);
        },
        Expr::Parenthesized { expression } => collect_nodes(expression, into_assignments, out),
        Expr::Object { properties } => collect_list(properties, into_assignments, out),
        Expr::Property { key, value } => {
            collect_nodes(key, into_assignments, out);
            collect_nodes(value, into_assignments, out);
        },
        Expr::Array { elements } => collect_list(elements, into_assignments, out),
        Expr::Arrow { params, body, .. } => {
            collect_list(params, into_assignments, out);
            collect_list(body, into_assignments, out);
        },
        Expr::Function { params, statements } => {
            collect_list(params, into_assignments, out);
            if let Some(b) = statements {
                collect_list(b, into_assignments, out);
            }
        },
        Expr::Param { pattern, initializer } => {
            collect_nodes(pattern, into_assignments, out);
            if let Some(i) = initializer {
                collect_nodes(i, into_assignments, out);
            }
        },
        Expr::Assignment { target, right } => {
            if into_assignments {
                collect_nodes(target, into_assignments, out);
                collect_nodes(right, into_assignments, out);
            }
        },
        Expr::Return { returned } => {
            if let Some(a) = returned {
                collect_nodes(a, into_assignments, out);
            }
        },
        Expr::Declarator { pattern, init, .. } => {
            collect_nodes(pattern, into_assignments, out);
            if let Some(i) = init {
                collect_nodes(i, into_assignments, out);
            }
        },
        Expr::Spread { argument } => collect_nodes(argument, into_assignments, out),
        Expr::Other { children } => collect_list(children, into_assignments, out),
        _ => {},
    }
}

/// Appends to `out` the nodes that walks from each of `es` reach, in turn.
pub fn collect_list<'a>(es: &'a Vec<Expr>, into_assignments: bool, out: &mut Vec<&'a Expr>)
    ensures
        nodes(final(out)@) =~= nodes(old(out)@) + walk_list(es@, into_assignments),
    decreases es,
{
    let ghost start = nodes(out@);
    let mut i: usize = 0;
    while i < es.len()
        invariant
            i <= es.len(),
            nodes(out@) =~= start + walk_list(es@.take(i as int), into_assignments),
        decreases es.len() - i,
    {
        assert(es@.take(i + 1).drop_last() =~= es@.take(i as int));
        collect_nodes(&es[i], into_assignments, out);
        i = i + 1;
    }
    assert(es@.take(es.len() as int) =~= es@);
}

} // verus!
