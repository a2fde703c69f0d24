# batter

Finds the JavaScript a web site loads and what that JavaScript references:
the chunks that bundlers (webpack, turbopack, next.js build manifests, vite)
load on demand, the http endpoints passed to request calls, and absolute urls
in string literals. The crawler fetches a site's page, every script it loads
and, transitively, every chunk those scripts load, and writes them all out.

## Layout

- `src/` — the library, verified with Verus.
  - `js/parser.rs` — parsing with oxc, and the conversion of oxc's tree into
    `js/ast.rs`, the program tree the extractors read; `js/fold.rs` — the
    pre-order walk every extractor shares.
  - `js/webpack.rs`, `js/turbopack.rs`, `js/buildmanifest.rs`, `js/vite.rs`,
    `js/endpoints.rs`, `js/urls.rs` — one extractor each, a spec function
    stating what it finds and an exec function proved to find exactly that.
  - `js/visitor.rs`, `js/source.rs` — the walk over a whole program and the
    resolution of chunk urls against the url a source was served from;
    `js.rs` — the first-generation chunk-url walk.
  - `webpack.rs` — webpack's chunk id -> hash map and the chunk filenames it implies.
  - `site.rs` — the crawl's decisions: which sources to fetch (resolved,
    same-domain unless allowed, never twice) and what to report.
  - `html.rs` — the script sources of a page; `domain.rs` — subdomains from
    `subfinder` output; `util.rs` — source-url resolution; `writer.rs` — the
    background writer's decisions: what a write job puts on disk, which writes
    it takes before and after `join`, and what its receiving loop does on each
    event.
  - `weburl.rs`, `text.rs` — url operations (through `reqwest::Url`) and text helpers.
- `app/` — the command-line program: argument handling, http, files,
  prettier and the background writer's channel and tasks.
- `tests/` — tests of the library.
