//! JavaScript analysis: extractors that read a parsed program, and the walks
//! that apply them to every node.
//!
//! `JsSource` here is the first-generation analysis that only collects chunk
//! urls, unresolved; `source::JsSource` also collects endpoints and urls and
//! resolves chunk urls against the source's own url.

pub mod ast;
pub mod buildmanifest;
pub mod endpoints;
pub mod fold;
pub mod parser;
pub mod source;
pub mod turbopack;
pub mod urls;
pub mod visitor;
pub mod vite;
pub mod webpack;

use vstd::prelude::*;
use crate::js::ast::{Expr, Program};
use crate::js::fold::{collect_list, nodes, walk_list};
use crate::js::parser::{parse_program, spec_parse_program, ParseError};
use crate::js::turbopack::{spec_turbopack_chunk_urls, turbopack_chunk_urls};
use crate::js::webpack::{chunk_urls, spec_chunk_urls};
use crate::text::{dedup, str_eq, views};

verus! {

/// The chunk urls that the first-generation walk finds at one node: webpack's
/// chunk-filename function at `<x>.u = <arrow>`, and turbopack's chunk
/// registration at a call.
pub open spec fn walker_node_chunk_urls(n: Expr) -> Seq<Seq<char>> {
    match n {
        Expr::Assignment { target, right } => match *right {
            Expr::Arrow { .. } => match *target {
                Expr::StaticMember { property, .. } =>
                    if property@ == "u"@ { spec_chunk_urls(*right) } else { Seq::empty() },
                _ => Seq::empty(),
            },
            _ => Seq::empty(),
        },
        Expr::Call { .. } => spec_turbopack_chunk_urls(n),
        _ => Seq::empty(),
    }
}

/// The chunk urls the first-generation walk finds at the nodes `ns`, in order.
pub open spec fn walker_gathered(ns: Seq<Expr>) -> Seq<Seq<char>>
    decreases ns.len(),
{
    if ns.len() == 0 {
        Seq::empty()
    } else {
        walker_gathered(ns.drop_last()) + walker_node_chunk_urls(ns.last())
    }
}

/// A JavaScript source's text.
pub struct JsSource {
    source_text: String,
}

impl JsSource {
    /// The source text.
    pub closed spec fn source_text(&self) -> Seq<char> {
        self.source_text@
    }

    /// A source with the given text.
    pub fn new(source_text: String) -> (res: Self)
        ensures
            res.source_text() == source_text@,
    {
        JsSource { source_text }
    }

    /// Parses the source and gives the chunk urls it holds, as the bundle
    /// writes them, each once; fails where the text does not parse.
    pub fn parse(&self) -> (res: Result<Vec<String>, ParseError>)
        ensures
            match spec_parse_program(self.source_text()) {
                Some(program) => match res {
                    Ok(urls) => views(urls@).no_duplicates()
                        && views(urls@).to_set() == walker_gathered(walk_list(program.body@, false)).to_set(),
                    Err(_) => false,
                },
                None => res == Err::<Vec<String>, ParseError>(ParseError::ParserPanicked),
            },
    {
        match parse_program(self.source_text.as_str()) {
            Some(program) => Ok(walker_chunk_urls(&program)),
            None => Err(ParseError::ParserPanicked),
        }
    }
}

/// The chunk urls a parsed program holds, as the bundle writes them, each once.
/// The walk visits an assignment but does not go below it.
pub fn walker_chunk_urls(program: &Program) -> (res: Vec<String>)
    ensures
        views(res@).no_duplicates(),
        views(res@).to_set() == walker_gathered(walk_list(program.body@, false)).to_set(),
{
    let mut ns: Vec<&Expr> = Vec::new();
    collect_list(&program.body, false, &mut ns);
    let ghost all = walk_list(program.body@, false);
    assert(nodes(ns@) =~= all);
    let mut walker = JsWalker::new();
    let mut i: usize = 0;
    while i < ns.len()
        invariant
            i <= ns.len(),
            nodes(ns@) == all,
            views(walker.chunk_urls@) == walker_gathered(all.take(i as int)),
        decreases ns.len() - i,
    {
        assert(all.take(i + 1).drop_last() =~= all.take(i as int));
        assert(all.take(i + 1).last() == *ns@[i as int]);
        let ghost before = views(walker.chunk_urls@);
        let n: &Expr = ns[i];
        match n {
            Expr::Assignment { .. } => walker.visit_assignment_expression(n),
            Expr::Call { .. } => walker.visit_call_expression(n),
            _ => {},
        }
        assert(views(walker.chunk_urls@) =~= before + walker_node_chunk_urls(*n));
        i = i + 1;
    }
    assert(all.take(ns.len() as int) =~= all);
    dedup(walker.chunk_urls)
}

/// Collects the chunk urls of the nodes it visits.
struct JsWalker {
    chunk_urls: Vec<String>,
}

impl JsWalker {
    /// A walker that has found nothing yet.
    fn new() -> (res: Self)
        ensures
            res.chunk_urls@.len() == 0,
    {
        JsWalker { chunk_urls: Vec::new() }
    }

    /// At `<x>.u = <arrow function>`: webpack's chunk urls.
    fn visit_assignment_expression(&mut self, it: &Expr)
        requires
            it is Assignment,
        ensures
            views(final(self).chunk_urls@) == views(old(self).chunk_urls@) + walker_node_chunk_urls(*it),
    {
        let ghost before = views(self.chunk_urls@);
        if let Expr::Assignment { target, right } = it {
            if let Expr::Arrow { .. } = &**right {
                if let Expr::StaticMember { property, .. } = &**target {
                    if str_eq(property.as_str(), "u") {
                        let mut found = chunk_urls(right);
                        let ghost f = views(found@);
                        self.chunk_urls.append(&mut found);
                        assert(views(self.chunk_urls@) =~= before + f);
                    }
                }
            }
        }
        assert(views(self.chunk_urls@) =~= before + walker_node_chunk_urls(*it));
    }

    /// At a call: turbopack's chunk urls.
    fn visit_call_expression(&mut self, it: &Expr)
        requires
            it is Call,
        ensures
            views(final(self).chunk_urls@) == views(old(self).chunk_urls@) + walker_node_chunk_urls(*it),
    {
        let ghost before = views(self.chunk_urls@);
        let mut found = turbopack_chunk_urls(it);
        let ghost f = views(found@);
        self.chunk_urls.append(&mut found);
        assert(views(self.chunk_urls@) =~= before + f);
    }
}

} // verus!
