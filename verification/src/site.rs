//! The decisions of a crawl of one site: which of the sources a page or a
//! bundle references get fetched (resolved against the site's url, cross-site
//! ones dropped unless allowed, none twice), and what is accumulated across
//! the crawl and reported at its end (endpoints and urls found in the
//! fetched javascript).

use vstd::prelude::*;
use crate::js::source::ParseResult;
use crate::text::{extend_unique, join, joined, push_unique, views};
use crate::weburl::{spec_url_domain, spec_url_join, url_domain, url_join};

verus! {

/// The sources that resolve against `base`, resolved, in order; those that do
/// not resolve are dropped.
pub open spec fn resolved_sources(base: Seq<char>, sources: Seq<Seq<char>>) -> Seq<Seq<char>>
    decreases sources.len(),
{
    if sources.len() == 0 {
        Seq::empty()
    } else {
        resolved_sources(base, sources.drop_last()) + match spec_url_join(base, sources.last()) {
            Some(u) => seq![u],
            None => Seq::empty(),
        }
    }
}

/// `source` is on the same domain as `base` (two urls without a domain, such as
/// ip-address hosts, count as the same).
pub open spec fn same_domain(base: Seq<char>, source: Seq<char>) -> bool {
    spec_url_domain(source) == spec_url_domain(base)
}

/// The sources on the same domain as `base`, in order.
pub open spec fn same_domain_sources(base: Seq<char>, sources: Seq<Seq<char>>) -> Seq<Seq<char>>
    decreases sources.len(),
{
    if sources.len() == 0 {
        Seq::empty()
    } else {
        same_domain_sources(base, sources.drop_last()) + if same_domain(base, sources.last()) {
            seq![sources.last()]
        } else {
            Seq::empty()
        }
    }
}

/// The state of a crawl of one site.
pub struct Site {
    url: String,
    allow_external_sources: bool,
    endpoints: Vec<String>,
    urls: Vec<String>,
}

impl Site {
    /// The site's url.
    pub closed spec fn url(&self) -> Seq<char> {
        self.url@
    }

    /// Whether sources on other domains are fetched too.
    pub closed spec fn allows_external_sources(&self) -> bool {
        self.allow_external_sources
    }

    /// The endpoints found so far, in the order they were first found.
    pub closed spec fn endpoint_list(&self) -> Seq<Seq<char>> {
        views(self.endpoints@)
    }

    /// The urls found so far, in the order they were first found.
    pub closed spec fn url_list(&self) -> Seq<Seq<char>> {
        views(self.urls@)
    }

    /// The endpoints found so far.
    pub open spec fn endpoints(&self) -> Set<Seq<char>> {
        self.endpoint_list().to_set()
    }

    /// The urls found so far.
    pub open spec fn urls(&self) -> Set<Seq<char>> {
        self.url_list().to_set()
    }

    /// No endpoint or url is held twice.
    pub closed spec fn wf(&self) -> bool {
        views(self.endpoints@).no_duplicates() && views(self.urls@).no_duplicates()
    }

    /// A crawl of the site at `url` that keeps to the site's own domain and has
    /// found nothing yet.
    pub fn new(url: String) -> (res: Self)
        ensures
            res.wf(),
            res.url() == url@,
            !res.allows_external_sources(),
            res.endpoints() == Set::<Seq<char>>::empty(),
            res.urls() == Set::<Seq<char>>::empty(),
    {
        let res = Site { url, allow_external_sources: false, endpoints: Vec::new(), urls: Vec::new() };
        assert(views(res.endpoints@).to_set() =~= Set::empty());
        assert(views(res.urls@).to_set() =~= Set::empty());
        res
    }

    /// The same crawl, fetching sources on other domains too.
    pub fn allow_external_sources(self) -> (res: Self)
        ensures
            res.allows_external_sources(),
            res.url() == self.url(),
            res.endpoints() == self.endpoints(),
            res.urls() == self.urls(),
            res.wf() == self.wf(),
    {
        let mut site = self;
        site.allow_external_sources = true;
        site
    }

    /// Resolves source urls against the site's url; those that do not resolve
    /// are dropped.
    pub fn resolve_sources(&self, source_strs: Vec<String>) -> (res: Vec<String>)
        ensures
            views(res@) == resolved_sources(self.url(), views(source_strs@)),
    {
        let mut out: Vec<String> = Vec::new();
        let mut i: usize = 0;
        while i < source_strs.len()
            invariant
                i <= source_strs.len(),
                views(out@) == resolved_sources(self.url(), views(source_strs@).take(i as int)),
            decreases source_strs.len() - i,
        {
            assert(views(source_strs@).take(i + 1).drop_last() =~= views(source_strs@).take(i as int));
            let ghost before = views(out@);
            if let Some(u) = url_join(self.url.as_str(), source_strs[i].as_str()) {
                out.push(u);
            }
            assert(views(out@) =~= before + match spec_url_join(self.url(), source_strs@[i as int]@) {
                Some(u) => seq![u],
                None => Seq::empty(),
            });
            i = i + 1;
        }
        assert(views(source_strs@).take(source_strs.len() as int) =~= views(source_strs@));
        out
    }

    /// The sources to fetch: all of them where external sources are allowed,
    /// else those on the site's own domain.
    pub fn apply_source_filters(&self, sources: Vec<String>) -> (res: Vec<String>)
        ensures
            views(res@) == if self.allows_external_sources() {
                views(sources@)
            } else {
                same_domain_sources(self.url(), views(sources@))
            },
    {
        if self.allow_external_sources {
            sources
        } else {
            self.filter_external(sources)
        }
    }

    /// The sources on the site's own domain, in order.
    pub fn filter_external(&self, sources: Vec<String>) -> (res: Vec<String>)
        ensures
            views(res@) == same_domain_sources(self.url(), views(sources@)),
    {
        let site_domain = url_domain(self.url.as_str());
        let mut out: Vec<String> = Vec::new();
        let mut i: usize = 0;
        while i < sources.len()
            invariant
                i <= sources.len(),
                crate::text::opt_view(site_domain) == spec_url_domain(self.url()),
                views(out@) == same_domain_sources(self.url(), views(sources@).take(i as int)),
            decreases sources.len() - i,
        {
            assert(views(sources@).take(i + 1).drop_last() =~= views(sources@).take(i as int));
            let ghost before = views(out@);
            let domain = url_domain(sources[i].as_str());
            let same = match (&domain, &site_domain) {
                (Some(a), Some(b)) => crate::text::str_eq(a.as_str(), b.as_str()),
                (None, None) => true,
                _ => false,
            };
            if same {
                out.push(sources[i].clone());
            }
            assert(views(out@) =~= before + if same_domain(self.url(), sources@[i as int]@) {
                seq![sources@[i as int]@]
            } else {
                Seq::empty()
            });
            i = i + 1;
        }
        assert(views(sources@).take(sources.len() as int) =~= views(sources@));
        out
    }

    /// Records the endpoints and urls that parsing a fetched source found, and
    /// returns its chunk urls resolved against the site's url, to be fetched next.
    pub fn record_parse_result(&mut self, parsed: ParseResult) -> (res: Vec<String>)
        requires
            old(self).wf(),
        ensures
            final(self).wf(),
            final(self).url() == old(self).url(),
            final(self).allows_external_sources() == old(self).allows_external_sources(),
            final(self).endpoints() == old(self).endpoints().union(views(parsed.endpoints@).to_set()),
            final(self).urls() == old(self).urls().union(views(parsed.urls@).to_set()),
            views(res@) == resolved_sources(old(self).url(), views(parsed.chunk_urls@)),
    {
        let ParseResult { chunk_urls, endpoints, urls } = parsed;
        extend_unique(&mut self.endpoints, endpoints);
        extend_unique(&mut self.urls, urls);
        self.resolve_sources(chunk_urls)
    }

    /// The contents of the endpoints report: every endpoint found, one per
    /// line, each once; none where no endpoint was found.
    pub fn endpoints_report(&self) -> (res: Option<String>)
        ensures
            self.wf() ==> self.endpoint_list().no_duplicates(),
            match res {
                Some(text) => self.endpoints().len() > 0 && text@ == joined(self.endpoint_list(), "\n"@),
                None => self.endpoints() == Set::<Seq<char>>::empty(),
            },
    {
        report(&self.endpoints)
    }

    /// The contents of the urls report: every url found, one per line, each
    /// once; none where no url was found.
    pub fn urls_report(&self) -> (res: Option<String>)
        ensures
            self.wf() ==> self.url_list().no_duplicates(),
            match res {
                Some(text) => self.urls().len() > 0 && text@ == joined(self.url_list(), "\n"@),
                None => self.urls() == Set::<Seq<char>>::empty(),
            },
    {
        report(&self.urls)
    }
}

/// The lines joined with newlines; none where there are no lines.
fn report(lines: &Vec<String>) -> (res: Option<String>)
    ensures
        match res {
            Some(text) => views(lines@).to_set().len() > 0 && text@ == joined(views(lines@), "\n"@),
            None => views(lines@).to_set() == Set::<Seq<char>>::empty(),
        },
{
    if lines.len() == 0 {
        assert(views(lines@).to_set() =~= Set::empty());
        None
    } else {
        proof {
            assert(views(lines@).to_set().contains(views(lines@)[0]));
            vstd::seq_lib::seq_to_set_is_finite(views(lines@));
            if views(lines@).to_set().len() == 0 {
                views(lines@).to_set().lemma_len0_is_empty();
            }
        }
        Some(join(lines, "\n"))
    }
}

/// What a sequence of candidate urls schedules for fetching, given the urls seen
/// before: the urls seen afterwards, and the candidates not seen before, each
/// once, in order.
pub open spec fn scheduled(seen: Set<Seq<char>>, candidates: Seq<Seq<char>>) -> (Set<Seq<char>>, Seq<Seq<char>>)
    decreases candidates.len(),
{
    if candidates.len() == 0 {
        (seen, Seq::empty())
    } else {
        let (s, fresh) = scheduled(seen, candidates.drop_last());
        if s.contains(candidates.last()) {
            (s, fresh)
        } else {
            (s.insert(candidates.last()), fresh.push(candidates.last()))
        }
    }
}

/// The urls a crawl has already scheduled for fetching.
pub struct SeenUrls {
    seen: Vec<String>,
}

impl View for SeenUrls {
    type V = Set<Seq<char>>;

    closed spec fn view(&self) -> Set<Seq<char>> {
        views(self.seen@).to_set()
    }
}

impl SeenUrls {
    /// No url is held twice.
    pub closed spec fn wf(&self) -> bool {
        views(self.seen@).no_duplicates()
    }

    /// Nothing seen yet.
    pub fn new() -> (res: Self)
        ensures
            res.wf(),
            res@ == Set::<Seq<char>>::empty(),
    {
        let res = SeenUrls { seen: Vec::new() };
        assert(views(res.seen@).to_set() =~= Set::empty());
        res
    }

    /// Marks the candidates as seen and returns those not seen before, each
    /// once, in order: the urls to fetch.
    pub fn schedule(&mut self, candidates: Vec<String>) -> (fresh: Vec<String>)
        requires
            old(self).wf(),
        ensures
            final(self).wf(),
            (final(self)@, views(fresh@)) == scheduled(old(self)@, views(candidates@)),
    {
        let mut fresh: Vec<String> = Vec::new();
        let mut i: usize = 0;
        while i < candidates.len()
            invariant
                i <= candidates.len(),
                self.wf(),
                (self@, views(fresh@)) == scheduled(old(self)@, views(candidates@).take(i as int)),
            decreases candidates.len() - i,
        {
            assert(views(candidates@).take(i + 1).drop_last() =~= views(candidates@).take(i as int));
            let ghost before = views(self.seen@);
            let ghost fresh_before = views(fresh@);
            let added = push_unique(&mut self.seen, candidates[i].clone());
            proof {
                if added {
                    before.lemma_push_to_set_commute(candidates@[i as int]@);
                } else {
                    assert(before.to_set().contains(candidates@[i as int]@));
                }
            }
            if added {
                fresh.push(candidates[i].clone());
                assert(views(fresh@) =~= fresh_before.push(candidates@[i as int]@));
            }
            i = i + 1;
        }
        assert(views(candidates@).take(candidates.len() as int) =~= views(candidates@));
        fresh
    }
}

/// A crawl fetches each url at most once: the urls a batch of candidates
/// schedules are new (not seen before) and distinct, and afterwards every
/// candidate counts as seen.
pub proof fn lemma_scheduled_are_fresh(seen: Set<Seq<char>>, candidates: Seq<Seq<char>>)
    ensures
        scheduled(seen, candidates).1.no_duplicates(),
        forall|u: Seq<char>| scheduled(seen, candidates).1.contains(u) ==> !seen.contains(u),
        scheduled(seen, candidates).0 == seen.union(candidates.to_set()),
        scheduled(seen, candidates).1.to_set() == candidates.to_set().difference(seen),
    decreases candidates.len(),
{
    if candidates.len() == 0 {
        assert(candidates.to_set() =~= Set::empty());
        assert(seen.union(candidates.to_set()) =~= seen);
        assert(scheduled(seen, candidates).1.to_set() =~= Set::empty());
        assert(candidates.to_set().difference(seen) =~= Set::empty());
    } else {
        let prefix = candidates.drop_last();
        let c = candidates.last();
        lemma_scheduled_are_fresh(seen, prefix);
        let (s, fresh) = scheduled(seen, prefix);
        assert(candidates =~= prefix.push(c));
        prefix.lemma_push_to_set_commute(c);
        if s.contains(c) {
            assert(seen.union(candidates.to_set()) =~= s);
            assert(candidates.to_set().difference(seen) =~= prefix.to_set().difference(seen));
        } else {
            assert(seen.union(candidates.to_set()) =~= s.insert(c));
            fresh.lemma_push_to_set_commute(c);
            assert(fresh.push(c).to_set() =~= candidates.to_set().difference(seen));
            assert forall|a: int, b: int| 0 <= a < b < fresh.push(c).len() implies fresh.push(c)[a] != fresh.push(c)[b] by {
                if b == fresh.len() {
                    assert(fresh.to_set().contains(fresh[a]));
                }
            }
        }
    }
}

/// No url is scheduled twice over a crawl: what a later batch schedules is disjoint
/// from what an earlier batch scheduled.
pub proof fn lemma_never_scheduled_twice(seen: Set<Seq<char>>, first: Seq<Seq<char>>, second: Seq<Seq<char>>)
    ensures
        forall|u: Seq<char>|
            scheduled(seen, first).1.contains(u) ==> !scheduled(scheduled(seen, first).0, second).1.contains(u),
{
    lemma_scheduled_are_fresh(seen, first);
    lemma_scheduled_are_fresh(scheduled(seen, first).0, second);
    assert forall|u: Seq<char>| scheduled(seen, first).1.contains(u) implies
        !scheduled(scheduled(seen, first).0, second).1.contains(u) by {
        assert(scheduled(seen, first).1.to_set().contains(u));
        assert(first.to_set().contains(u));
        assert(scheduled(seen, first).0.contains(u));
    }
}

/// Filtering keeps exactly the sources on the site's own domain: each kept
/// source was given and shares the site's domain, and each given source that
/// shares it is kept.
pub proof fn lemma_filtered_sources_share_domain(base: Seq<char>, sources: Seq<Seq<char>>)
    ensures
        forall|u: Seq<char>| #[trigger] same_domain_sources(base, sources).contains(u)
            ==> sources.contains(u) && same_domain(base, u),
        forall|u: Seq<char>| sources.contains(u) && same_domain(base, u)
            ==> #[trigger] same_domain_sources(base, sources).contains(u),
    decreases sources.len(),
{
    if sources.len() > 0 {
        let prefix = sources.drop_last();
        lemma_filtered_sources_share_domain(base, prefix);
        let rest = same_domain_sources(base, prefix);
        let all = same_domain_sources(base, sources);
        assert forall|u: Seq<char>| #[trigger] all.contains(u) implies sources.contains(u) && same_domain(base, u) by {
            let k = choose|k: int| 0 <= k < all.len() && all[k] == u;
            if k < rest.len() {
                assert(rest[k] == u);
                assert(rest.contains(u));
                let j = choose|j: int| 0 <= j < prefix.len() && prefix[j] == u;
                assert(sources[j] == u);
            } else {
                assert(sources[sources.len() - 1] == u);
            }
        }
        assert forall|u: Seq<char>| sources.contains(u) && same_domain(base, u) implies #[trigger] all.contains(u) by {
            let k = choose|k: int| 0 <= k < sources.len() && sources[k] == u;
            if k < sources.len() - 1 {
                assert(prefix[k] == u);
                assert(rest.contains(u));
                let j = choose|j: int| 0 <= j < rest.len() && rest[j] == u;
                assert(all[j] == u);
            } else {
                assert(all[rest.len() as int] == u);
            }
        }
    }
}

} // verus!
