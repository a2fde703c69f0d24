//! A fetched JavaScript source: its text and the url it was served from, and
//! what parsing it finds, with chunk urls resolved against that url.

use vstd::prelude::*;
use crate::js::ast::Program;
use crate::js::parser::{parse_program, spec_parse_program, ParseError};
use crate::js::visitor::{self, JsVisitor, program_chunk_urls, program_endpoints, program_urls};
use crate::text::{chars_of, dedup, find, rfind_char, spec_find, spec_rfind_char, string_of, views};
use crate::weburl::{spec_url_join, spec_url_path, url_join, url_path};

verus! {

/// What to join against a source's url for the chunk path `raw`, where `path`
/// is the path of the source's url.
///
/// The chunk-loader code only holds a bundler-relative path such as
/// "assets/x.js", while the source may be served from within the same mount
/// as its chunks (".../assets/index.js"). Where the chunk path's leading
/// directory (everything up to its last '/') occurs in the source's path, the
/// chunk path is re-rooted where that directory first occurs; otherwise (no
/// leading directory, no path, or the directory does not occur, as for a
/// build manifest at ".../static/<buildId>/_buildManifest.js" that lists
/// "static/chunks/pages/foo.js") it is `raw` itself, joined as it stands.
pub open spec fn spec_chunk_target(path: Option<Seq<char>>, raw: Seq<char>) -> Seq<char> {
    match spec_rfind_char(raw, '/') {
        Some(slash) => match path {
            Some(path) => match spec_find(path, raw.subrange(0, slash + 1)) {
                Some(mount_end) => path.subrange(0, mount_end) + raw,
                None => raw,
            },
            None => raw,
        },
        None => raw,
    }
}

/// The url to fetch for the chunk path `raw` that the source at `url` loads:
/// its target (see `spec_chunk_target`) joined against `url`; `raw` as it is
/// where the join fails.
pub open spec fn spec_resolve_chunk_url(url: Seq<char>, raw: Seq<char>) -> Seq<char> {
    match spec_url_join(url, spec_chunk_target(spec_url_path(url), raw)) {
        Some(resolved) => resolved,
        None => raw,
    }
}

/// What parsing one source finds; each list holds no text twice.
pub struct ParseResult {
    /// Chunk urls, resolved against the source's url.
    pub chunk_urls: Vec<String>,
    /// The static skeletons of urls passed to recognized request calls, not
    /// resolved against anything.
    pub endpoints: Vec<String>,
    /// String literals that are absolute http/https urls.
    pub urls: Vec<String>,
}

/// What `analyze_program` finds in `program`, for a source served from `url`:
/// each list holds no text twice; the chunk urls are those the program holds,
/// each resolved against `url`; the endpoints and urls are those it holds.
pub open spec fn finds(res: ParseResult, program: Program, url: Seq<char>) -> bool {
    &&& views(res.chunk_urls@).no_duplicates()
    &&& views(res.endpoints@).no_duplicates()
    &&& views(res.urls@).no_duplicates()
    &&& views(res.chunk_urls@).to_set() == program_chunk_urls(program).map(
        |raw: Seq<char>| spec_resolve_chunk_url(url, raw),
    )
    &&& views(res.endpoints@).to_set() == program_endpoints(program)
    &&& views(res.urls@).to_set() == program_urls(program)
}

/// A JavaScript source's text and the url it was served from.
pub struct JsSource {
    source_text: String,
    url: String,
}

impl JsSource {
    /// The source text.
    pub closed spec fn source_text(&self) -> Seq<char> {
        self.source_text@
    }

    /// The url the source was served from.
    pub closed spec fn url(&self) -> Seq<char> {
        self.url@
    }

    /// A source with the given text, served from `url`.
    pub fn new(source_text: String, url: String) -> (res: Self)
        ensures
            res.source_text() == source_text@,
            res.url() == url@,
    {
        JsSource { source_text, url }
    }

    /// Parses the source and gives the chunk urls (resolved against its url),
    /// endpoints and urls it holds; fails where the text does not parse.
    pub fn parse(&self) -> (res: Result<ParseResult, ParseError>)
        ensures
            match spec_parse_program(self.source_text()) {
                Some(program) => match res {
                    Ok(found) => finds(found, program, self.url()),
                    Err(_) => false,
                },
                None => res == Err::<ParseResult, ParseError>(ParseError::ParserPanicked),
            },
    {
        match parse_program(self.source_text.as_str()) {
            Some(program) => Ok(analyze_program(&program, self.url.as_str())),
            None => Err(ParseError::ParserPanicked),
        }
    }

    /// Re-roots a bundler-relative chunk path under the mount that this
    /// source's own url implies (see `spec_resolve_chunk_url`).
    pub fn resolve_chunk_url(&self, raw: &str) -> (res: String)
        ensures
            res@ == spec_resolve_chunk_url(self.url(), raw@),
    {
        resolve_chunk_url_against(self.url.as_str(), raw)
    }
}

/// The chunk urls (resolved against `url`), endpoints and urls that a parsed
/// program served from `url` holds.
pub fn analyze_program(program: &Program, url: &str) -> (res: ParseResult)
    ensures
        finds(res, *program, url@),
{
    let found = JsVisitor::new().parse(program);
    proof {
        assert(Seq::<Seq<char>>::empty() + visitor::gathered(visitor::visited(*program)).0
            =~= visitor::gathered(visitor::visited(*program)).0);
        assert(Seq::<Seq<char>>::empty() + visitor::gathered(visitor::visited(*program)).1
            =~= visitor::gathered(visitor::visited(*program)).1);
        assert(Seq::<Seq<char>>::empty() + visitor::gathered(visitor::visited(*program)).2
            =~= visitor::gathered(visitor::visited(*program)).2);
    }
    let mut resolved: Vec<String> = Vec::new();
    let mut i: usize = 0;
    while i < found.chunk_urls.len()
        invariant
            i <= found.chunk_urls.len(),
            views(resolved@) =~= views(found.chunk_urls@).take(i as int).map_values(
                |raw: Seq<char>| spec_resolve_chunk_url(url@, raw),
            ),
        decreases found.chunk_urls.len() - i,
    {
        let r = resolve_chunk_url_against(url, found.chunk_urls[i].as_str());
        let ghost before = views(resolved@);
        resolved.push(r);
        assert(views(found.chunk_urls@).take(i + 1) =~= views(found.chunk_urls@).take(i as int).push(
            found.chunk_urls@[i as int]@,
        ));
        assert(views(resolved@) =~= before.push(r@));
        i = i + 1;
    }
    proof {
        assert(views(found.chunk_urls@).take(found.chunk_urls.len() as int) =~= views(found.chunk_urls@));
        views(found.chunk_urls@).lemma_to_set_map_commutes(
            |raw: Seq<char>| spec_resolve_chunk_url(url@, raw),
        );
    }
    ParseResult { chunk_urls: dedup(resolved), endpoints: found.endpoints, urls: found.urls }
}

/// What to join against a source's url for the chunk path `raw`, where `path`
/// is the path of the source's url (see `spec_chunk_target`).
pub fn chunk_target(path: Option<&str>, raw: &str) -> (res: String)
    ensures
        res@ == spec_chunk_target(
            match path {
                Some(p) => Some(p@),
                None => None,
            },
            raw@,
        ),
{
    let raw_chars = chars_of(raw);
    // its length fits in a usize, so one past the slash found below does too
    let raw_len: usize = raw_chars.len();
    assert(raw_chars@.len() == raw_len);
    match rfind_char(&raw_chars, '/') {
        Some(slash_idx) => match path {
            Some(path) => {
                let directory = string_of(&raw_chars, 0, slash_idx + 1);
                let directory_chars = chars_of(directory.as_str());
                let path_chars = chars_of(path);
                match find(&path_chars, &directory_chars) {
                    Some(mount_end) => {
                        let mut t = string_of(&path_chars, 0, mount_end);
                        t.append(raw);
                        t
                    },
                    None => raw.to_string(),
                }
            },
            None => raw.to_string(),
        },
        None => raw.to_string(),
    }
}

/// Re-roots a bundler-relative chunk path under the mount that `url` implies
/// and joins it against `url` (see `spec_resolve_chunk_url`).
pub fn resolve_chunk_url_against(url: &str, raw: &str) -> (res: String)
    ensures
        res@ == spec_resolve_chunk_url(url@, raw@),
{
    let path = url_path(url);
    let target = match &path {
        Some(p) => chunk_target(Some(p.as_str()), raw),
        None => chunk_target(None, raw),
    };
    match url_join(url, target.as_str()) {
        Some(resolved) => resolved,
        None => raw.to_string(),
    }
}

} // verus!
