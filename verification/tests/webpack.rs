use std::collections::HashSet;

use batter::js::ast::{Expr, Program};
use batter::webpack::{chunk_filenames, chunk_map_of_program, extract_chunk_map, ChunkMap};

fn b(e: Expr) -> Box<Expr> {
    Box::new(e)
}

fn id(name: &str) -> Expr {
    Expr::Identifier { name: name.to_string() }
}

fn lit(value: &str) -> Expr {
    Expr::StringLiteral { raw: Some(format!("\"{value}\"")), value: value.to_string() }
}

fn num(text: &str) -> Expr {
    Expr::NumericLiteral { raw: Some(text.to_string()), rounded: text.to_string() }
}

fn member(object: Expr, property: &str) -> Expr {
    Expr::StaticMember { object: b(object), property: property.to_string() }
}

fn assign(target: Expr, right: Expr) -> Expr {
    Expr::Assignment { target: b(target), right: b(right) }
}

fn prop(key: Expr, value: Expr) -> Expr {
    Expr::Property { key: b(key), value: b(value) }
}

// __webpack_require__.p = "/_next/";
// __webpack_require__.u = (e) => "static/chunks/" + e + "." + {558: "0979", 4327: "115b"}[e] + ".js";
fn runtime() -> Program {
    let map = Expr::Object { properties: vec![prop(num("558"), lit("0979")), prop(num("4327"), lit("115b"))] };
    let body = Expr::Binary {
        addition: true,
        left: b(lit("static/chunks/")),
        right: b(Expr::ComputedMember { object: b(map), expression: b(id("e")) }),
    };
    Program {
        body: vec![
            assign(member(id("__webpack_require__"), "p"), lit("/_next/")),
            assign(
                member(id("__webpack_require__"), "u"),
                Expr::Arrow {
                    params: vec![Expr::Param { pattern: b(id("e")), initializer: None }],
                    is_expression: true,
                    body: vec![body],
                },
            ),
        ],
    }
}

#[test]
fn extracts_the_chunk_map_and_public_path() {
    let (map, public_path) = match chunk_map_of_program(&runtime()) {
        Some(found) => found,
        None => panic!("the runtime holds a chunk map"),
    };
    assert_eq!(public_path, Some("/_next/".to_string()));
    assert_eq!(map.len(), 2);

    let names: HashSet<String> = chunk_filenames(&map, public_path.as_deref()).into_iter().collect();
    assert_eq!(names, HashSet::from(["/_next/558.0979.js".to_string(), "/_next/4327.115b.js".to_string()]));
}

#[test]
fn finds_no_chunk_map_without_a_chunk_filename_assignment() {
    let program = Program { body: vec![assign(member(id("x"), "p"), lit("/static/"))] };
    assert!(chunk_map_of_program(&program).is_none());
}

#[test]
fn later_entries_replace_earlier_ones_for_the_same_id() {
    let mut map = ChunkMap::new();
    map.insert("1".to_string(), "aaa".to_string());
    map.insert("2".to_string(), "bbb".to_string());
    map.insert("1".to_string(), "ccc".to_string());
    assert_eq!(map.len(), 2);
    let names: HashSet<String> = chunk_filenames(&map, None).into_iter().collect();
    assert_eq!(names, HashSet::from(["1.ccc.js".to_string(), "2.bbb.js".to_string()]));
}

#[test]
fn extracts_the_chunk_map_from_source_text() {
    let source = "__webpack_require__.p = \"/_next/\";\n__webpack_require__.u = (e) => \"static/chunks/\" + e + \".\" + {558: \"0979\", 4327: \"115b\"}[e] + \".js\";";
    let (map, public_path) = match extract_chunk_map(source) {
        Some(found) => found,
        None => panic!("the runtime holds a chunk map"),
    };
    assert_eq!(public_path, Some("/_next/".to_string()));
    assert_eq!(map.len(), 2);
    let names: HashSet<String> = chunk_filenames(&map, public_path.as_deref()).into_iter().collect();
    assert_eq!(names, HashSet::from(["/_next/558.0979.js".to_string(), "/_next/4327.115b.js".to_string()]));
}

#[test]
fn finds_no_chunk_map_in_source_text_without_one() {
    assert!(extract_chunk_map("x.p = \"/static/\";").is_none());
}

#[test]
fn lists_one_name_per_entry_even_where_two_names_coincide() {
    let mut map = ChunkMap::new();
    map.insert("a.b".to_string(), "c".to_string());
    map.insert("a".to_string(), "b.c".to_string());
    assert_eq!(chunk_filenames(&map, None), vec!["a.b.c.js".to_string(), "a.b.c.js".to_string()]);
}

#[test]
fn the_public_path_is_a_prefix_of_every_name() {
    let mut map = ChunkMap::new();
    map.insert("1".to_string(), "aa".to_string());
    map.insert("2".to_string(), "bb".to_string());
    let bare = chunk_filenames(&map, None);
    assert_eq!(bare, chunk_filenames(&map, Some("")));
    let prefixed = chunk_filenames(&map, Some("/p/"));
    assert_eq!(prefixed, bare.iter().map(|name| format!("/p/{name}")).collect::<Vec<String>>());
}
