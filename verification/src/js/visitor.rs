//! The walk over a whole program that collects what every extractor finds.
//!
//! At each assignment `target = right`: webpack's chunk-filename function
//! (`<x>.u = <arrow function>`) and next.js's build manifest
//! (`<x>.__BUILD_MANIFEST = <function call>`); the walk then goes on into both
//! sides. At each call: a turbopack chunk registration and a request
//! endpoint. At each variable declarator: vite's dependency map. At each
//! string literal: an absolute url.

use vstd::prelude::*;
use crate::js::ast::{Expr, Program};
use crate::js::buildmanifest::{build_manifest_chunk_urls, spec_build_manifest_chunk_urls};
use crate::js::endpoints::{extract_endpoint, spec_extract_endpoint};
use crate::js::fold::{collect_list, nodes, walk_list};
use crate::js::turbopack::{spec_turbopack_chunk_urls, turbopack_chunk_urls};
use crate::js::urls::{is_url, spec_is_url};
use crate::js::vite::{spec_vite_chunk_urls, vite_chunk_urls};
use crate::js::webpack::{chunk_urls, spec_chunk_urls};
use crate::text::{dedup, str_eq, views};

verus! {

/// The chunk urls (as the bundle writes them) found at one node.
pub open spec fn node_chunk_urls(n: Expr) -> Seq<Seq<char>> {
    match n {
        Expr::Assignment { target, right } => match *right {
            Expr::Arrow { .. } => match *target {
                Expr::StaticMember { property, .. } =>
                    if property@ == "u"@ { spec_chunk_urls(*right) } else { Seq::empty() },
                _ => Seq::empty(),
            },
            Expr::Call { .. } => spec_build_manifest_chunk_urls(*target, *right),
            _ => Seq::empty(),
        },
        Expr::Call { .. } => spec_turbopack_chunk_urls(n),
        Expr::Declarator { .. } => spec_vite_chunk_urls(n),
        _ => Seq::empty(),
    }
}

/// The endpoint found at one node, if any.
pub open spec fn node_endpoints(n: Expr) -> Seq<Seq<char>> {
    match n {
        Expr::Call { .. } => match spec_extract_endpoint(n) {
            Some(e) => seq![e],
            None => Seq::empty(),
        },
        _ => Seq::empty(),
    }
}

/// The absolute url found at one node, if any.
pub open spec fn node_urls(n: Expr) -> Seq<Seq<char>> {
    match n {
        Expr::StringLiteral { value, .. } => if spec_is_url(value@) { seq![value@] } else { Seq::empty() },
        _ => Seq::empty(),
    }
}

/// What a visitor collects from the nodes `ns`, in order: chunk urls, endpoints
/// and urls.
pub open spec fn gathered(ns: Seq<Expr>) -> (Seq<Seq<char>>, Seq<Seq<char>>, Seq<Seq<char>>)
    decreases ns.len(),
{
    if ns.len() == 0 {
        (Seq::empty(), Seq::empty(), Seq::empty())
    } else {
        let (c, e, u) = gathered(ns.drop_last());
        (c + node_chunk_urls(ns.last()), e + node_endpoints(ns.last()), u + node_urls(ns.last()))
    }
}

/// The nodes of a program that the visitor reaches, in pre-order.
pub open spec fn visited(program: Program) -> Seq<Expr> {
    walk_list(program.body@, true)
}

/// The chunk urls found in a program, as the bundle writes them.
pub open spec fn program_chunk_urls(program: Program) -> Set<Seq<char>> {
    gathered(visited(program)).0.to_set()
}

/// The endpoints found in a program.
pub open spec fn program_endpoints(program: Program) -> Set<Seq<char>> {
    gathered(visited(program)).1.to_set()
}

/// The absolute urls found in a program's string literals.
pub open spec fn program_urls(program: Program) -> Set<Seq<char>> {
    gathered(visited(program)).2.to_set()
}

/// What one visit of a program found; each list holds no text twice.
pub struct ParseResult {
    /// Chunk urls as the bundle writes them, not yet resolved against anything.
    pub chunk_urls: Vec<String>,
    /// The static skeletons of the urls passed to recognized request calls.
    pub endpoints: Vec<String>,
    /// String literals that are absolute http/https urls.
    pub urls: Vec<String>,
}

/// Collects chunk urls, endpoints and urls from the nodes it visits.
pub struct JsVisitor {
    pub chunk_urls: Vec<String>,
    pub endpoints: Vec<String>,
    pub urls: Vec<String>,
}

impl JsVisitor {
    /// A visitor that has found nothing yet.
    pub fn new() -> (res: Self)
        ensures
            res.chunk_urls@.len() == 0,
            res.endpoints@.len() == 0,
            res.urls@.len() == 0,
    {
        JsVisitor { chunk_urls: Vec::new(), endpoints: Vec::new(), urls: Vec::new() }
    }

    /// Visits every node of `program` that the walk reaches and returns what was
    /// found, each list without repeats.
    pub fn parse(self, program: &Program) -> (res: ParseResult)
        ensures
            views(res.chunk_urls@).no_duplicates(),
            views(res.endpoints@).no_duplicates(),
            views(res.urls@).no_duplicates(),
            views(res.chunk_urls@).to_set() == (views(self.chunk_urls@) + gathered(visited(*program)).0).to_set(),
            views(res.endpoints@).to_set() == (views(self.endpoints@) + gathered(visited(*program)).1).to_set(),
            views(res.urls@).to_set() == (views(self.urls@) + gathered(visited(*program)).2).to_set(),
    {
        let mut visitor = self;
        let mut ns: Vec<&Expr> = Vec::new();
        collect_list(&program.body, true, &mut ns);
        let ghost all = visited(*program);
        assert(nodes(ns@) =~= all);
        let ghost c0 = views(visitor.chunk_urls@);
        let ghost e0 = views(visitor.endpoints@);
        let ghost u0 = views(visitor.urls@);
        let mut i: usize = 0;
        while i < ns.len()
            invariant
                i <= ns.len(),
                nodes(ns@) == all,
                views(visitor.chunk_urls@) == c0 + gathered(all.take(i as int)).0,
                views(visitor.endpoints@) == e0 + gathered(all.take(i as int)).1,
                views(visitor.urls@) == u0 + gathered(all.take(i as int)).2,
            decreases ns.len() - i,
        {
            assert(all.take(i + 1).drop_last() =~= all.take(i as int));
            assert(all.take(i + 1).last() == *ns@[i as int]);
            visitor.visit_node(ns[i]);
            i = i + 1;
        }
        assert(all.take(ns.len() as int) =~= all);
        ParseResult {
            chunk_urls: dedup(visitor.chunk_urls),
            endpoints: dedup(visitor.endpoints),
            urls: dedup(visitor.urls),
        }
    }

    /// Records what the extractors find at one node.
    pub fn visit_node(&mut self, it: &Expr)
        ensures
            views(final(self).chunk_urls@) == views(old(self).chunk_urls@) + node_chunk_urls(*it),
            views(final(self).endpoints@) == views(old(self).endpoints@) + node_endpoints(*it),
            views(final(self).urls@) == views(old(self).urls@) + node_urls(*it),
    {
        match it {
            Expr::Assignment { .. } => {
                self.visit_assignment_expression(it);
                assert(views(self.endpoints@) =~= views(old(self).endpoints@) + node_endpoints(*it));
                assert(views(self.urls@) =~= views(old(self).urls@) + node_urls(*it));
            },
            Expr::Call { .. } => {
                self.visit_call_expression(it);
                assert(views(self.urls@) =~= views(old(self).urls@) + node_urls(*it));
            },
            Expr::Declarator { .. } => {
                let mut found = vite_chunk_urls(it);
                let ghost before = views(self.chunk_urls@);
                let ghost f = views(found@);
                self.chunk_urls.append(&mut found);
                assert(views(self.chunk_urls@) =~= before + f);
                assert(views(self.chunk_urls@) =~= before + node_chunk_urls(*it));
                assert(views(self.endpoints@) =~= views(old(self).endpoints@) + node_endpoints(*it));
                assert(views(self.urls@) =~= views(old(self).urls@) + node_urls(*it));
            },
            Expr::StringLiteral { value, .. } => {
                let ghost before = views(self.urls@);
                if is_url(value.as_str()) {
                    self.urls.push(value.clone());
                }
                assert(views(self.urls@) =~= before + node_urls(*it));
                assert(views(self.chunk_urls@) =~= views(old(self).chunk_urls@) + node_chunk_urls(*it));
                assert(views(self.endpoints@) =~= views(old(self).endpoints@) + node_endpoints(*it));
            },
            _ => {
                assert(views(self.chunk_urls@) =~= views(old(self).chunk_urls@) + node_chunk_urls(*it));
                assert(views(self.endpoints@) =~= views(old(self).endpoints@) + node_endpoints(*it));
                assert(views(self.urls@) =~= views(old(self).urls@) + node_urls(*it));
            },
        }
    }

    /// At an assignment: webpack's chunk-filename function (`<x>.u = <arrow>`)
    /// and next.js's build manifest (`<x>.__BUILD_MANIFEST = <call>`).
    pub fn visit_assignment_expression(&mut self, it: &Expr)
        requires
            it is Assignment,
        ensures
            views(final(self).chunk_urls@) == views(old(self).chunk_urls@) + node_chunk_urls(*it),
            final(self).endpoints == old(self).endpoints,
            final(self).urls == old(self).urls,
    {
        let ghost before = views(self.chunk_urls@);
        if let Expr::Assignment { target, right } = it {
            match &**right {
                Expr::Arrow { .. } => {
                    if let Expr::StaticMember { property, .. } = &**target {
                        if str_eq(property.as_str(), "u") {
                            let mut found = chunk_urls(right);
                            let ghost f = views(found@);
                            self.chunk_urls.append(&mut found);
                            assert(views(self.chunk_urls@) =~= before + f);
                        }
                    }
                },
                Expr::Call { .. } => {
                    let mut found = build_manifest_chunk_urls(target, right);
                    let ghost f = views(found@);
                    self.chunk_urls.append(&mut found);
                    assert(views(self.chunk_urls@) =~= before + f);
                },
                _ => {},
            }
        }
        assert(views(self.chunk_urls@) =~= before + node_chunk_urls(*it));
    }

    /// At a call: a turbopack chunk registration and a request endpoint.
    pub fn visit_call_expression(&mut self, it: &Expr)
        requires
            it is Call,
        ensures
            views(final(self).chunk_urls@) == views(old(self).chunk_urls@) + node_chunk_urls(*it),
            views(final(self).endpoints@) == views(old(self).endpoints@) + node_endpoints(*it),
            final(self).urls == old(self).urls,
    {
        let ghost c = views(self.chunk_urls@);
        let ghost e = views(self.endpoints@);
        if let Expr::Call { .. } = it {
            let mut found = turbopack_chunk_urls(it);
            let ghost f = views(found@);
            self.chunk_urls.append(&mut found);
            assert(views(self.chunk_urls@) =~= c + f);
            if let Some(endpoint) = extract_endpoint(it) {
                self.endpoints.push(endpoint);
            }
        }
        assert(views(self.chunk_urls@) =~= c + node_chunk_urls(*it));
        assert(views(self.endpoints@) =~= e + node_endpoints(*it));
    }
}

} // verus!
