//! The javascript extractors, on programs written out as the parser hands
//! them over: each test's program is the tree of the javascript source quoted
//! above it.

use std::collections::HashSet;

use batter::js::ast::{Expr, Program, Quasi};
use batter::js::source::{analyze_program, chunk_target, JsSource};
use batter::js::urls::is_url;

fn b(e: Expr) -> Box<Expr> {
    Box::new(e)
}

fn id(name: &str) -> Expr {
    Expr::Identifier { name: name.to_string() }
}

fn lit(value: &str) -> Expr {
    Expr::StringLiteral { raw: Some(format!("\"{value}\"")), value: value.to_string() }
}

fn num(text: &str) -> Expr {
    Expr::NumericLiteral { raw: Some(text.to_string()), rounded: text.to_string() }
}

fn member(object: Expr, property: &str) -> Expr {
    Expr::StaticMember { object: b(object), property: property.to_string() }
}

fn computed(object: Expr, expression: Expr) -> Expr {
    Expr::ComputedMember { object: b(object), expression: b(expression) }
}

fn call(callee: Expr, arguments: Vec<Expr>) -> Expr {
    Expr::Call { callee: b(callee), arguments }
}

fn paren(e: Expr) -> Expr {
    Expr::Parenthesized { expression: b(e) }
}

fn add(left: Expr, right: Expr) -> Expr {
    Expr::Binary { addition: true, left: b(left), right: b(right) }
}

fn compare(left: Expr, right: Expr) -> Expr {
    Expr::Binary { addition: false, left: b(left), right: b(right) }
}

fn or(left: Expr, right: Expr) -> Expr {
    Expr::Logical { left: b(left), right: b(right) }
}

fn cond(test: Expr, consequent: Expr, alternate: Expr) -> Expr {
    Expr::Conditional { test: b(test), consequent: b(consequent), alternate: b(alternate) }
}

fn object(properties: Vec<Expr>) -> Expr {
    Expr::Object { properties }
}

fn prop(key: Expr, value: Expr) -> Expr {
    Expr::Property { key: b(key), value: b(value) }
}

fn array(elements: Vec<Expr>) -> Expr {
    Expr::Array { elements }
}

fn param(name: &str) -> Expr {
    Expr::Param { pattern: b(id(name)), initializer: None }
}

fn param_default(name: &str, init: Expr) -> Expr {
    Expr::Param { pattern: b(id(name)), initializer: Some(b(init)) }
}

fn arrow(params: Vec<Expr>, body: Expr) -> Expr {
    Expr::Arrow { params, is_expression: true, body: vec![body] }
}

fn function(params: Vec<Expr>, statements: Vec<Expr>) -> Expr {
    Expr::Function { params, statements: Some(statements) }
}

fn ret(e: Expr) -> Expr {
    Expr::Return { returned: Some(b(e)) }
}

fn assign(target: Expr, right: Expr) -> Expr {
    Expr::Assignment { target: b(target), right: b(right) }
}

fn other(children: Vec<Expr>) -> Expr {
    Expr::Other { children }
}

fn const_decl(name: &str, init: Expr) -> Expr {
    other(vec![Expr::Declarator {
        binding_name: Some(name.to_string()),
        pattern: b(id(name)),
        init: Some(b(init)),
    }])
}

fn template(parts: &[&str], expressions: Vec<Expr>) -> Expr {
    Expr::TemplateLiteral {
        quasis: parts
            .iter()
            .map(|p| Quasi { raw: p.to_string(), cooked: Some(p.to_string()) })
            .collect(),
        expressions,
    }
}

fn program(body: Vec<Expr>) -> Program {
    Program { body }
}

fn set(items: &[&str]) -> HashSet<String> {
    items.iter().map(|s| s.to_string()).collect()
}

fn as_set(v: Vec<String>) -> HashSet<String> {
    let s: HashSet<String> = v.iter().cloned().collect();
    assert_eq!(s.len(), v.len(), "no text is listed twice");
    s
}

fn parsed(p: Program, url: &str) -> batter::js::source::ParseResult {
    analyze_program(&p, url)
}

fn endpoints_of(statements: Vec<Expr>) -> HashSet<String> {
    as_set(parsed(program(statements), "https://example.com/app.js").endpoints)
}

fn urls_of(statements: Vec<Expr>) -> HashSet<String> {
    as_set(parsed(program(statements), "https://example.com/app.js").urls)
}

fn chunk_urls_of(statements: Vec<Expr>, url: &str) -> HashSet<String> {
    as_set(parsed(program(statements), url).chunk_urls)
}

fn raw_chunk_urls_of(statements: Vec<Expr>) -> HashSet<String> {
    as_set(batter::js::walker_chunk_urls(&program(statements)))
}

// `c.u = (e) => "static/chunks/" + (<id> === e ? "<fragment>" : e) + "." + {<map>}[e] + ".js"`
fn webpack_chain(override_id: &str, fragment: &str, map: &[(&str, &str)]) -> Expr {
    add(
        add(
            add(
                add(
                    lit("static/chunks/"),
                    paren(cond(compare(num(override_id), id("e")), lit(fragment), id("e"))),
                ),
                lit("."),
            ),
            computed(object(map.iter().map(|(k, v)| prop(num(k), lit(v))).collect()), id("e")),
        ),
        lit(".js"),
    )
}

fn chunk_loader(body: Expr) -> Expr {
    paren(assign(member(id("c"), "u"), arrow(vec![param("e")], body)))
}

// (c.u = (e) =>
//   "static/chunks/" +
//   (6467 === e ? "c07e5374" : e) +
//   "." +
//   { 558: "097941ffb76484a3", 4327: "115b4e4cf5dfd289", 6467: "744537bcd0ee57b6",
//     6497: "746d29151a1f862f", 6684: "dcd4d65d61c9e94e" }[e] +
//   ".js");
#[test]
fn extracts_urls_from_simple_hash_map() {
    let map = [
        ("558", "097941ffb76484a3"),
        ("4327", "115b4e4cf5dfd289"),
        ("6467", "744537bcd0ee57b6"),
        ("6497", "746d29151a1f862f"),
        ("6684", "dcd4d65d61c9e94e"),
    ];
    let urls = raw_chunk_urls_of(vec![chunk_loader(webpack_chain("6467", "c07e5374", &map))]);

    assert_eq!(
        urls,
        set(&[
            "static/chunks/558.097941ffb76484a3.js",
            "static/chunks/4327.115b4e4cf5dfd289.js",
            "static/chunks/c07e5374.744537bcd0ee57b6.js",
            "static/chunks/6497.746d29151a1f862f.js",
            "static/chunks/6684.dcd4d65d61c9e94e.js",
        ])
    );
}

const OVERRIDE_MAP: [(&str, &str); 87] = [
    ("2", "c1a2846f3c3641f7"),
    ("256", "b8179e6d733a9e5e"),
    ("309", "e6f4d65b96c26a32"),
    ("318", "f34ffe3d81016fb3"),
    ("342", "66246f81469c8aca"),
    ("360", "6f45a3ac17ff5e66"),
    ("678", "6af955a4ea697b5b"),
    ("824", "bcf588fdea08a359"),
    ("832", "258656724072c5ed"),
    ("880", "5b6719800dc6511e"),
    ("953", "5bd95ddfa2b55338"),
    ("1213", "d15dfef62684bec9"),
    ("1233", "3427744d2ea3d545"),
    ("1296", "707a578b14c18d1a"),
    ("1774", "7707355e1f040a9f"),
    ("1835", "577a8fa2357ca1ff"),
    ("1903", "e4b8b49c2936d85b"),
    ("2001", "7c4282eb189b75e5"),
    ("2088", "4eba9a894feeab5f"),
    ("2142", "82391b86c80968b5"),
    ("2270", "8d3afb4a2465a759"),
    ("2882", "cc73bfe154e3c9c1"),
    ("2983", "8f95794a3b23873e"),
    ("3041", "9c6cd85e01e4a83c"),
    ("3143", "5c573db873437a36"),
    ("3222", "fe2729b4f29352c8"),
    ("3375", "70784a01e3be1276"),
    ("3777", "32b0e4e8b835d119"),
    ("3829", "47f6e0543e8417ab"),
    ("3830", "96c33a8268218c23"),
    ("4005", "422eb8bad2673319"),
    ("4057", "919f5a31515d8726"),
    ("4171", "0046349166b7b2c0"),
    ("4313", "af7a089a40447df3"),
    ("4396", "b6c701f03dcf293b"),
    ("4410", "72aeafab866d2154"),
    ("4461", "91562e9d96050558"),
    ("4545", "f4d7181424793dfd"),
    ("4654", "5abb94ed3905a6f7"),
    ("4679", "a5b1f969a636dd50"),
    ("4997", "9a72e442e42d5f95"),
    ("5029", "8bb7b689c4c61964"),
    ("5186", "a5a0026379545ed5"),
    ("5206", "5685d0c889e7f569"),
    ("5345", "39c5535430242b5e"),
    ("5431", "3ff7121a6271c81a"),
    ("5488", "e5ec26c27f1a08c0"),
    ("5711", "567f768380d0ede8"),
    ("5758", "10930938d115ce0d"),
    ("5871", "2343d3e324530ab7"),
    ("6361", "b572c7fcb5346749"),
    ("6499", "1ec5cd5d2b222da7"),
    ("6611", "16afcb8e26ec8f09"),
    ("6637", "10c7478261f07139"),
    ("6746", "52d38fc80d8b573c"),
    ("6915", "55b7936d49f8dd05"),
    ("6954", "9c91a19272024c62"),
    ("7132", "e15c78aa0ebbf7fd"),
    ("7214", "ee04f69226f595e7"),
    ("7247", "4e09b9e06840ab8a"),
    ("7398", "1705ae6a08f4be28"),
    ("7416", "2df3853ff779c6fa"),
    ("7558", "670eb496e293b783"),
    ("7566", "6101c2fd8431a6cc"),
    ("7716", "559516986d5a7220"),
    ("7972", "f542e874beed4c0d"),
    ("8071", "f42fb058c26b0ce4"),
    ("8225", "46c6d444ccc3351e"),
    ("8503", "312e81a60700fa31"),
    ("8593", "e33a94e4b18eadc5"),
    ("8625", "7bd8c1a1e5bd2858"),
    ("8680", "5a08bf557bea3f86"),
    ("8783", "b20272153d35e0cd"),
    ("8802", "5a77c6b2ea5891c3"),
    ("8980", "28e01af73b20e3b1"),
    ("9023", "4b9b1ab789c46dc8"),
    ("9135", "d2492f8e0defdfb5"),
    ("9301", "a161aa909ea37336"),
    ("9360", "eb11f4eb6eb82e47"),
    ("9461", "6d8d33e40a81f1d8"),
    ("9471", "ec5e74041bd491c5"),
    ("9489", "ab13c35585f7a826"),
    ("9507", "611586227ec7a47a"),
    ("9580", "c7948d62fcdb4cda"),
    ("9874", "861437dd294ccc6a"),
    ("9929", "48747c558c93f645"),
    ("9991", "98fe12aeeb749fbc"),
];

// (c.u = (e) =>
//   6918 === e
//     ? "static/chunks/6918-9e9acda1c00665ed.js"
//     : "static/chunks/" + (3829 === e ? "a2997d9c" : e) + "." + { 2: "c1a2846f3c3641f7", ... }[e] + ".js");
#[test]
fn extracts_urls_with_a_hardcoded_literal_override() {
    let body = cond(
        compare(num("6918"), id("e")),
        lit("static/chunks/6918-9e9acda1c00665ed.js"),
        webpack_chain("3829", "a2997d9c", &OVERRIDE_MAP),
    );
    let urls = raw_chunk_urls_of(vec![chunk_loader(body)]);

    // the hardcoded literal-path override for chunk 6918
    assert!(urls.contains("static/chunks/6918-9e9acda1c00665ed.js"));

    // an ordinary entry straight from the id -> hash map
    assert!(urls.contains("static/chunks/2.c1a2846f3c3641f7.js"));

    // the id whose filename fragment gets substituted (3829 -> "a2997d9c")
    // while its hash still comes from the map
    assert!(urls.contains("static/chunks/a2997d9c.47f6e0543e8417ab.js"));
    assert!(!urls.contains("static/chunks/3829.47f6e0543e8417ab.js"));

    // 87 entries in the map, plus the 6918 literal override url (which
    // never appears in the map itself)
    assert_eq!(urls.len(), 87 + 1);
}

// (globalThis.TURBOPACK || (globalThis.TURBOPACK = [])).push([
//   "object" == typeof document ? document.currentScript : void 0,
//   {
//     otherChunks: [
//       "static/immutable/chunks/236-04af9ww4u.js",
//       "static/immutable/chunks/0ifbgewhks2yb.js",
//       "static/immutable/chunks/2ko36sx9hycil.js",
//       "static/immutable/chunks/2tt92x9jwpwmi.js",
//     ],
//     runtimeModuleIds: [554156],
//   },
// ]);
fn turbopack_push() -> Expr {
    let global = || member(id("globalThis"), "TURBOPACK");
    call(
        member(paren(or(global(), paren(assign(global(), array(vec![]))))), "push"),
        vec![array(vec![
            cond(
                compare(lit("object"), other(vec![id("document")])),
                member(id("document"), "currentScript"),
                other(vec![num("0")]),
            ),
            object(vec![
                prop(
                    id("otherChunks"),
                    array(vec![
                        lit("static/immutable/chunks/236-04af9ww4u.js"),
                        lit("static/immutable/chunks/0ifbgewhks2yb.js"),
                        lit("static/immutable/chunks/2ko36sx9hycil.js"),
                        lit("static/immutable/chunks/2tt92x9jwpwmi.js"),
                    ]),
                ),
                prop(id("runtimeModuleIds"), array(vec![num("554156")])),
            ]),
        ])],
    )
}

#[test]
fn js_extracts_urls_from_turbopack_push() {
    let urls = raw_chunk_urls_of(vec![turbopack_push()]);

    assert_eq!(
        urls,
        set(&[
            "static/immutable/chunks/236-04af9ww4u.js",
            "static/immutable/chunks/0ifbgewhks2yb.js",
            "static/immutable/chunks/2ko36sx9hycil.js",
            "static/immutable/chunks/2tt92x9jwpwmi.js",
        ])
    );
}

#[test]
fn turbopack_extracts_urls_from_turbopack_push() {
    // no path segment shared with the chunk urls below, so resolution
    // falls back to a plain join against this source's url
    let urls = chunk_urls_of(vec![turbopack_push()], "https://example.com/entry.js");

    assert_eq!(
        urls,
        set(&[
            "https://example.com/static/immutable/chunks/236-04af9ww4u.js",
            "https://example.com/static/immutable/chunks/0ifbgewhks2yb.js",
            "https://example.com/static/immutable/chunks/2ko36sx9hycil.js",
            "https://example.com/static/immutable/chunks/2tt92x9jwpwmi.js",
        ])
    );
}

// self.__BUILD_MANIFEST = function(s) {
//     return {
//         __rewrites: { afterFiles: [], beforeFiles: [], fallback: [] },
//         "/": ["static/chunks/pages/index-hash.js"],
//         sortedPages: ["/"]
//     }
// }();
#[test]
fn ignores_sorted_pages_and_rewrites() {
    let manifest = assign(
        member(id("self"), "__BUILD_MANIFEST"),
        call(
            function(
                vec![param("s")],
                vec![ret(object(vec![
                    prop(
                        id("__rewrites"),
                        object(vec![
                            prop(id("afterFiles"), array(vec![])),
                            prop(id("beforeFiles"), array(vec![])),
                            prop(id("fallback"), array(vec![])),
                        ]),
                    ),
                    prop(lit("/"), array(vec![lit("static/chunks/pages/index-hash.js")])),
                    prop(id("sortedPages"), array(vec![lit("/")])),
                ]))],
            ),
            vec![],
        ),
    );

    let urls = chunk_urls_of(vec![manifest], "https://example.com/_buildManifest.js");

    assert_eq!(urls, set(&["https://example.com/static/chunks/pages/index-hash.js"]));
}

// fetch("/api/users");
#[test]
fn extracts_endpoint_from_fetch() {
    let endpoints = endpoints_of(vec![call(id("fetch"), vec![lit("/api/users")])]);
    assert_eq!(endpoints, set(&["/api/users"]));
}

// axios.get("/api/users");
// axios.post("/api/users", { name: "bob" });
#[test]
fn extracts_endpoint_from_axios_verb_calls() {
    let endpoints = endpoints_of(vec![
        call(member(id("axios"), "get"), vec![lit("/api/users")]),
        call(member(id("axios"), "post"), vec![lit("/api/users"), object(vec![prop(id("name"), lit("bob"))])]),
    ]);
    assert_eq!(endpoints, set(&["/api/users"]));
}

// xhr.open("GET", "/api/users");
#[test]
fn extracts_endpoint_from_xhr_open() {
    let endpoints = endpoints_of(vec![call(member(id("xhr"), "open"), vec![lit("GET"), lit("/api/users")])]);
    assert_eq!(endpoints, set(&["/api/users"]));
}

// $.ajax({ url: "/api/users", method: "GET" });
#[test]
fn extracts_endpoint_from_jquery_ajax() {
    let endpoints = endpoints_of(vec![call(
        member(id("$"), "ajax"),
        vec![object(vec![prop(id("url"), lit("/api/users")), prop(id("method"), lit("GET"))])],
    )]);
    assert_eq!(endpoints, set(&["/api/users"]));
}

// $.get("/api/users", function (data) {});
#[test]
fn extracts_endpoint_from_jquery_get() {
    let endpoints = endpoints_of(vec![call(
        member(id("$"), "get"),
        vec![lit("/api/users"), function(vec![param("data")], vec![])],
    )]);
    assert_eq!(endpoints, set(&["/api/users"]));
}

// fetch(`${base}/users/${id}`);
#[test]
fn extracts_template_literal_endpoint_as_static_skeleton() {
    let endpoints = endpoints_of(vec![call(
        id("fetch"),
        vec![template(&["", "/users/", ""], vec![id("base"), id("id")])],
    )]);
    assert_eq!(endpoints, set(&["{}/users/{}"]));
}

// fetch(url);
#[test]
fn skips_endpoint_with_no_static_content() {
    let endpoints = endpoints_of(vec![call(id("fetch"), vec![id("url")])]);
    assert!(endpoints.is_empty());
}

// fetch(base + "/users/" + id);
#[test]
fn skips_string_concatenation_without_extracting_a_bogus_endpoint() {
    let endpoints = endpoints_of(vec![call(id("fetch"), vec![add(add(id("base"), lit("/users/")), id("id"))])]);
    assert!(endpoints.is_empty());
}

// const x = "https://api.example.com/v1/users";
#[test]
fn detects_https_url() {
    let urls = urls_of(vec![const_decl("x", lit("https://api.example.com/v1/users"))]);
    assert_eq!(urls, set(&["https://api.example.com/v1/users"]));
}

// const x = "http://example.com";
#[test]
fn detects_http_url() {
    let urls = urls_of(vec![const_decl("x", lit("http://example.com"))]);
    assert_eq!(urls, set(&["http://example.com"]));
}

// const config = { base: "https://cdn.example.com/assets" };
#[test]
fn detects_url_anywhere_in_source_not_just_call_args() {
    let urls = urls_of(vec![const_decl("config", object(vec![prop(id("base"), lit("https://cdn.example.com/assets"))]))]);
    assert_eq!(urls, set(&["https://cdn.example.com/assets"]));
}

// fetch("/api/users");
#[test]
fn skips_relative_path() {
    let urls = urls_of(vec![call(id("fetch"), vec![lit("/api/users")])]);
    assert!(urls.is_empty());
}

// const x = "hello world";
#[test]
fn skips_non_url_string() {
    let urls = urls_of(vec![const_decl("x", lit("hello world"))]);
    assert!(urls.is_empty());
}

// const x = "https://";
#[test]
fn skips_bare_scheme_with_no_host() {
    let urls = urls_of(vec![const_decl("x", lit("https://"))]);
    assert!(urls.is_empty());
}

// const __vite__mapDeps = (
//   i,
//   m = __vite__mapDeps,
//   d = m.f || (m.f = [ <deps> ]),
// ) => i.map((i) => d[i]);
fn vite_map_deps(name: &str, deps: &[&str]) -> Expr {
    let memo = || member(id("m"), "f");
    const_decl(
        name,
        arrow(
            vec![
                param("i"),
                param_default("m", id("__vite__mapDeps")),
                param_default(
                    "d",
                    or(memo(), paren(assign(memo(), array(deps.iter().map(|d| lit(d)).collect())))),
                ),
            ],
            call(member(id("i"), "map"), vec![arrow(vec![param("i")], computed(id("d"), id("i")))]),
        ),
    )
}

const VITE_URL: &str = "https://example.com/assets/index-abc123.js";

#[test]
fn extracts_chunk_urls_from_vite_map_deps() {
    let source = vite_map_deps(
        "__vite__mapDeps",
        &[
            "assets/_authenticated-DyEAWQTU.js",
            "assets/react-vendor-bErXCNjO.js",
            "assets/quill-editor-CTpA5PSA.css",
        ],
    );

    let urls = chunk_urls_of(vec![source], VITE_URL);

    assert_eq!(
        urls,
        set(&[
            "https://example.com/assets/_authenticated-DyEAWQTU.js",
            "https://example.com/assets/react-vendor-bErXCNjO.js",
        ])
    );
}

#[test]
fn excludes_stylesheet_deps() {
    let source = vite_map_deps("__vite__mapDeps", &["assets/only-Bhash.css"]);

    let urls = chunk_urls_of(vec![source], VITE_URL);

    assert!(urls.is_empty());
}

// const notMapDeps = (a, b = ["assets/unrelated-hash.js"]) => a;
#[test]
fn ignores_arrow_functions_not_named_like_vites_helper() {
    let source = const_decl(
        "notMapDeps",
        arrow(vec![param("a"), param_default("b", array(vec![lit("assets/unrelated-hash.js")]))], id("a")),
    );

    let urls = chunk_urls_of(vec![source], VITE_URL);

    // gated on the "__vite__" name prefix, so an unrelated arrow function
    // with a similarly-shaped default parameter isn't mistaken for it
    assert!(urls.is_empty());
}

#[test]
fn extracts_from_a_realistic_large_deps_map() {
    let source = vite_map_deps(
        "__vite__mapDeps",
        &[
            "assets/_authenticated-DyEAWQTU.js",
            "assets/react-vendor-bErXCNjO.js",
            "assets/quill-editor-BXpEJkHl.js",
            "assets/utils-vendor-Db9XJ9nq.js",
            "assets/quill-editor-CTpA5PSA.css",
            "assets/markdown-vendor-DSL5j5k9.js",
            "assets/tanstack-vendor-BHBvUj2O.js",
            "assets/ui-common-other-DjIXBuLe.js",
            "assets/Sidebar-CPzXqfrv.js",
            "assets/ui-common-theme-B6tDIY9f.js",
        ],
    );

    let urls = chunk_urls_of(vec![source], VITE_URL);

    assert_eq!(
        urls,
        set(&[
            "https://example.com/assets/_authenticated-DyEAWQTU.js",
            "https://example.com/assets/react-vendor-bErXCNjO.js",
            "https://example.com/assets/quill-editor-BXpEJkHl.js",
            "https://example.com/assets/utils-vendor-Db9XJ9nq.js",
            "https://example.com/assets/markdown-vendor-DSL5j5k9.js",
            "https://example.com/assets/tanstack-vendor-BHBvUj2O.js",
            "https://example.com/assets/ui-common-other-DjIXBuLe.js",
            "https://example.com/assets/Sidebar-CPzXqfrv.js",
            "https://example.com/assets/ui-common-theme-B6tDIY9f.js",
        ])
    );
}

// self.__BUILD_MANIFEST = function(s, a, e) {
//     return {
//         "/": ["static/chunks/pages/index-0c908c63a8e98414.js"],
//         "/admin": [e, "static/chunks/48441-68c303ec46c18c38.js"],
//         sortedPages: ["/", "/admin"]
//     }
// }("static/chunks/5457-5674eca4f7b952ff.js");
// c.u = (e) => { return "static/chunks/" + e + "." + { 1: "aa" }[e] + ".js"; };
#[test]
fn reads_the_chunk_filename_function_from_a_returned_chain() {
    let chain = add(
        add(add(add(lit("static/chunks/"), id("e")), lit(".")), computed(object(vec![prop(num("1"), lit("aa"))]), id("e"))),
        lit(".js"),
    );
    let loader = assign(
        member(id("c"), "u"),
        Expr::Arrow { params: vec![param("e")], is_expression: false, body: vec![ret(chain)] },
    );

    assert_eq!(raw_chunk_urls_of(vec![loader]), set(&["static/chunks/1.aa.js"]));
}

// fetch(("/api/a")); $.ajax({ "url": `${base}/b` }); x = fetch("/api/c");
#[test]
fn visits_calls_on_either_side_of_assignments() {
    let endpoints = endpoints_of(vec![
        call(id("fetch"), vec![paren(lit("/api/a"))]),
        call(member(id("$"), "ajax"), vec![object(vec![prop(lit("url"), template(&["", "/b"], vec![id("base")]))])]),
        assign(id("x"), call(id("fetch"), vec![lit("/api/c")])),
    ]);
    assert_eq!(endpoints, set(&["/api/a", "{}/b", "/api/c"]));
}

// const a = "https://a.example.com"; fetch("https://b.example.com/api");
#[test]
fn the_visitor_reports_what_it_found_unresolved() {
    let p = program(vec![
        const_decl("a", lit("https://a.example.com")),
        call(id("fetch"), vec![lit("https://b.example.com/api")]),
        chunk_loader(webpack_chain("1", "one", &[("1", "aa"), ("2", "bb")])),
    ]);
    let found = batter::js::visitor::JsVisitor::new().parse(&p);
    assert_eq!(as_set(found.chunk_urls), set(&["static/chunks/one.aa.js", "static/chunks/2.bb.js"]));
    assert_eq!(as_set(found.endpoints), set(&["https://b.example.com/api"]));
    assert_eq!(as_set(found.urls), set(&["https://a.example.com", "https://b.example.com/api"]));
}

#[test]
fn is_url_needs_a_scheme_and_a_host() {
    assert!(is_url("https://example.com"));
    assert!(is_url("http://localhost:8080/x"));
    assert!(!is_url("https:///path"));
    assert!(!is_url("http://?q"));
    assert!(!is_url("http://#frag"));
    assert!(!is_url("ftp://example.com"));
    assert!(!is_url("HTTPS://example.com"));
}

// the same extractors, reached from source text through the parser

fn parsed_text(source: &str) -> batter::js::source::ParseResult {
    match JsSource::new(source.to_string(), "https://example.com/app.js".to_string()).parse() {
        Ok(found) => found,
        Err(err) => panic!("the source parses: {err:?}"),
    }
}

#[test]
fn finds_a_request_call_on_an_assignments_right_side() {
    assert_eq!(as_set(parsed_text("x = fetch(\"/api/users\");").endpoints), set(&["/api/users"]));
}

#[test]
fn finds_a_url_assigned_to_a_variable() {
    assert_eq!(as_set(parsed_text("x = \"https://a.example.com\";").urls), set(&["https://a.example.com"]));
}

#[test]
fn finds_endpoints_in_parsed_text() {
    let found = parsed_text(
        "fetch(\"/api/users\"); xhr.open(\"GET\", \"/api/items\"); fetch(`${base}/users/${id}`); fetch(url);",
    );
    assert_eq!(as_set(found.endpoints), set(&["/api/users", "/api/items", "{}/users/{}"]));
}

#[test]
fn finds_urls_anywhere_in_parsed_text() {
    let found = parsed_text(
        "const config = { base: \"https://cdn.example.com/assets\" }; const x = \"hello world\"; const y = \"https://\";",
    );
    assert_eq!(as_set(found.urls), set(&["https://cdn.example.com/assets"]));
}

#[test]
fn resolves_chunk_urls_found_in_parsed_text() {
    let source = "__webpack_require__.u = (e) => \"static/chunks/\" + e + \".\" + {558: \"0979\", 4327: \"115b\"}[e] + \".js\";";
    let found = match JsSource::new(source.to_string(), "https://example.com/_next/static/chunks/webpack.js".to_string()).parse() {
        Ok(found) => found,
        Err(err) => panic!("the source parses: {err:?}"),
    };
    assert_eq!(
        as_set(found.chunk_urls),
        set(&["https://example.com/_next/static/chunks/558.0979.js", "https://example.com/_next/static/chunks/4327.115b.js"])
    );
}

#[test]
fn the_first_generation_walk_parses_text_too() {
    let source = "__webpack_require__.u = (e) => \"static/chunks/\" + e + \".\" + {558: \"0979\"}[e] + \".js\";";
    let urls = match batter::js::JsSource::new(source.to_string()).parse() {
        Ok(urls) => urls,
        Err(err) => panic!("the source parses: {err:?}"),
    };
    assert_eq!(as_set(urls), set(&["static/chunks/558.0979.js"]));
}

#[test]
fn extracts_page_chunk_urls_from_build_manifest() {
    let source = r#"
            self.__BUILD_MANIFEST = function(s, a, e) {
                return {
                    __rewrites: { afterFiles: [], beforeFiles: [], fallback: [] },
                    "/": ["static/chunks/pages/index-0c908c63a8e98414.js"],
                    "/404": ["static/chunks/pages/404-5c22517a734ab15e.js"],
                    "/admin": [e, "static/chunks/48441-68c303ec46c18c38.js", "static/chunks/pages/admin-ac84cafb2ea7cc1a.js"],
                    sortedPages: ["/", "/404", "/admin"]
                }
            }("static/chunks/5457-5674eca4f7b952ff.js", "static/chunks/26737-da0e45b9cbe2aeac.js");
            self.__BUILD_MANIFEST_CB && self.__BUILD_MANIFEST_CB();
        "#;

    let source_url = "https://example.com/_next/static/xyz/_buildManifest.js";

    let urls = match JsSource::new(source.to_string(), source_url.to_string()).parse() {
        Ok(found) => found.chunk_urls,
        Err(err) => panic!("the source parses: {err:?}"),
    };

    assert_eq!(
        as_set(urls),
        HashSet::from([
            "https://example.com/_next/static/xyz/static/chunks/pages/index-0c908c63a8e98414.js".to_string(),
            "https://example.com/_next/static/xyz/static/chunks/pages/404-5c22517a734ab15e.js".to_string(),
            "https://example.com/_next/static/xyz/static/chunks/48441-68c303ec46c18c38.js".to_string(),
            "https://example.com/_next/static/xyz/static/chunks/pages/admin-ac84cafb2ea7cc1a.js".to_string(),
        ])
    );
}

// the vite tests' case: the chunk path's leading directory occurs in the
// source's own path, so the chunk is re-rooted there
#[test]
fn re_roots_a_chunk_under_its_directory_in_the_sources_path() {
    assert_eq!(chunk_target(Some("/assets/index-abc123.js"), "assets/x.js"), "/assets/x.js");
    assert_eq!(chunk_target(Some("/_next/static/chunks/webpack.js"), "static/chunks/1.a.js"), "/_next/static/chunks/1.a.js");
}

#[test]
fn keeps_a_chunk_path_whose_directory_the_source_path_lacks() {
    assert_eq!(
        chunk_target(Some("/_next/static/xyz/_buildManifest.js"), "static/chunks/pages/a.js"),
        "static/chunks/pages/a.js"
    );
    assert_eq!(chunk_target(Some("/entry.js"), "a.js"), "a.js");
    assert_eq!(chunk_target(None, "static/a.js"), "static/a.js");
}

#[test]
fn the_first_generation_walk_stops_at_assignments() {
    let source = "x = (globalThis.TURBOPACK || []).push([s, { otherChunks: [\"static/chunks/a.js\"] }]);";
    let urls = match batter::js::JsSource::new(source.to_string()).parse() {
        Ok(urls) => urls,
        Err(err) => panic!("the source parses: {err:?}"),
    };
    assert!(urls.is_empty());
    let found = parsed_text(source);
    assert_eq!(as_set(found.chunk_urls), set(&["https://example.com/static/chunks/a.js"]));
}
