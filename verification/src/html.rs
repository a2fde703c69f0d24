//! The site's html page and the javascript sources it loads: the `src` of its
//! `<script>` elements and the `href` of its `<link as="script">` elements.

use vstd::prelude::*;
use vstd::utf8::{decode_utf8, valid_utf8};
use crate::text::{dedup, views};

verus! {

/// `core::str::Utf8Error`, the error of decoding bytes that are not UTF-8.
#[verifier::external_type_specification]
#[verifier::external_body]
pub struct ExUtf8Error(core::str::Utf8Error);

/// `core::str::from_utf8` decodes `v` where it is valid UTF-8 and fails
/// otherwise, as its documentation states.
pub assume_specification<'a>[ core::str::from_utf8 ](v: &'a [u8]) -> (res: Result<&'a str, core::str::Utf8Error>)
    ensures
        res is Ok <==> valid_utf8(v@),
        res matches Ok(s) ==> s@ == decode_utf8(v@),
;

/// What `scraper` yields for the html document `html`, the css selector
/// `selector` and the attribute `attr`: for each element the selector matches,
/// in the order `Html::select` yields them (the order in which the parser
/// inserted the nodes into the tree), the attribute's value if the element has
/// it; `None` where the selector does not parse.
pub uninterp spec fn spec_select_attribute_values(
    html: Seq<char>,
    selector: Seq<char>,
    attr: Seq<char>,
) -> Option<Seq<Option<Seq<char>>>>;

/// The texts of optional strings.
pub open spec fn opt_views(v: Seq<Option<String>>) -> Seq<Option<Seq<char>>> {
    v.map_values(|o: Option<String>| match o {
        Some(s) => Some(s@),
        None => None,
    })
}

/// Parses `html` with `scraper::Html::parse_document` and `selector` with
/// `scraper::Selector::parse`, selects the matching elements with
/// `Html::select`, and reads `attr` of each with `Element::attr`. The contract
/// claims only that the result is a function of the three strings.
#[verifier::external_body]
fn select_attribute_values(html: &str, selector: &str, attr: &str) -> (res: Option<Vec<Option<String>>>)
    ensures
        match res {
            Some(v) => spec_select_attribute_values(html@, selector@, attr@) == Some(opt_views(v@)),
            None => spec_select_attribute_values(html@, selector@, attr@) is None,
        },
{
    let document = scraper::Html::parse_document(html);
    let selector = scraper::Selector::parse(selector).ok()?;
    Some(document.select(&selector).map(|el| el.value().attr(attr).map(|s| s.to_string())).collect())
}

/// The values present among optional values, in order.
pub open spec fn present(v: Seq<Option<Seq<char>>>) -> Seq<Seq<char>>
    decreases v.len(),
{
    if v.len() == 0 {
        Seq::empty()
    } else {
        present(v.drop_last()) + match v.last() {
            Some(s) => seq![s],
            None => Seq::empty(),
        }
    }
}

/// The values of `attr` on the elements that `selector` matches; none where the
/// selector does not parse.
pub open spec fn attribute_values(html: Seq<char>, selector: Seq<char>, attr: Seq<char>) -> Set<Seq<char>> {
    match spec_select_attribute_values(html, selector, attr) {
        Some(v) => present(v).to_set(),
        None => Set::empty(),
    }
}

/// The `src` of the document's `<script>` elements.
pub open spec fn spec_script_sources(html: Seq<char>) -> Set<Seq<char>> {
    attribute_values(html, "script"@, "src"@)
}

/// The `href` of the document's `<link as='script'>` elements.
pub open spec fn spec_link_sources(html: Seq<char>) -> Set<Seq<char>> {
    attribute_values(html, "link[as='script']"@, "href"@)
}

/// Why a page could not be read as a document.
pub enum DocumentError {
    /// The page is not UTF-8.
    NotUtf8,
}

/// An html page.
pub struct Document {
    document: String,
}

/// The values of `attr` on the elements of `html` that `selector` matches,
/// each once.
fn attribute_values_of(html: &str, selector: &str, attr: &str) -> (res: Vec<String>)
    ensures
        views(res@).no_duplicates(),
        views(res@).to_set() == attribute_values(html@, selector@, attr@),
{
    let mut found: Vec<String> = Vec::new();
    match select_attribute_values(html, selector, attr) {
        Some(values) => {
            let mut i: usize = 0;
            while i < values.len()
                invariant
                    i <= values.len(),
                    views(found@) == present(opt_views(values@).take(i as int)),
                decreases values.len() - i,
            {
                assert(opt_views(values@).take(i + 1).drop_last() =~= opt_views(values@).take(i as int));
                let ghost before = views(found@);
                if let Some(v) = &values[i] {
                    found.push(v.clone());
                }
                assert(views(found@) =~= before + match opt_views(values@)[i as int] {
                    Some(s) => seq![s],
                    None => Seq::empty(),
                });
                i = i + 1;
            }
            assert(opt_views(values@).take(values.len() as int) =~= opt_views(values@));
        },
        None => {
            assert(views(found@).to_set() =~= Set::empty());
        },
    }
    dedup(found)
}

impl Document {
    /// The page's text.
    pub closed spec fn text(&self) -> Seq<char> {
        self.document@
    }

    /// Reads a page's bytes as an html document; fails where they are not UTF-8.
    pub fn new(bytes: &[u8]) -> (res: Result<Self, DocumentError>)
        ensures
            res is Ok <==> valid_utf8(bytes@),
            res matches Ok(d) ==> d.text() == decode_utf8(bytes@),
    {
        match core::str::from_utf8(bytes) {
            Ok(s) => Ok(Document { document: s.to_string() }),
            Err(_) => Err(DocumentError::NotUtf8),
        }
    }

    /// The `src` of every `<script>` element, each once.
    pub fn script_sources(&self) -> (res: Vec<String>)
        ensures
            views(res@).no_duplicates(),
            views(res@).to_set() == spec_script_sources(self.text()),
    {
        attribute_values_of(self.document.as_str(), "script", "src")
    }

    /// The `href` of every `<link as='script'>` element, each once.
    pub fn link_sources(&self) -> (res: Vec<String>)
        ensures
            views(res@).no_duplicates(),
            views(res@).to_set() == spec_link_sources(self.text()),
    {
        attribute_values_of(self.document.as_str(), "link[as='script']", "href")
    }

    /// Every javascript source the page loads, each once.
    pub fn sources(&self) -> (res: Vec<String>)
        ensures
            views(res@).no_duplicates(),
            views(res@).to_set() == spec_script_sources(self.text()).union(spec_link_sources(self.text())),
    {
        let mut sources = self.script_sources();
        let mut links = self.link_sources();
        let ghost a = views(sources@);
        let ghost b = views(links@);
        sources.append(&mut links);
        assert(views(sources@) =~= a + b);
        proof {
            vstd::seq_lib::seq_to_set_distributes_over_add(a, b);
        }
        dedup(sources)
    }
}

} // verus!
