//! Webpack's chunk id -> content hash map and public path, read from the
//! runtime chunk's `__webpack_require__.u = (chunkId) => ... { <id>: "<hash>", ... }[chunkId] ...`
//! and `__webpack_require__.p = "<public path>"` assignments, and the chunk
//! filenames rebuilt from them with webpack's default `{id}.{hash}.js` template.

use vstd::prelude::*;
use crate::js::ast::{Expr, Program};
use crate::js::fold::{collect_list, collect_nodes, nodes, walk, walk_list};
use crate::js::parser::{parse_program, spec_parse_program};
use crate::text::{opt_view, str_eq, views};

verus! {

/// The map that inserting `pairs` in order into an empty map builds.
pub open spec fn pairs_to_map(pairs: Seq<(Seq<char>, Seq<char>)>) -> Map<Seq<char>, Seq<char>>
    decreases pairs.len(),
{
    if pairs.len() == 0 {
        Map::empty()
    } else {
        pairs_to_map(pairs.drop_last()).insert(pairs.last().0, pairs.last().1)
    }
}

/// The keys of `pairs`, in order.
pub open spec fn keys(pairs: Seq<(Seq<char>, Seq<char>)>) -> Seq<Seq<char>> {
    pairs.map_values(|p: (Seq<char>, Seq<char>)| p.0)
}

/// The texts of a sequence of string pairs.
pub open spec fn pair_texts(v: Seq<(String, String)>) -> Seq<(Seq<char>, Seq<char>)> {
    v.map_values(|p: (String, String)| (p.0@, p.1@))
}

/// The keys of a map built from pairs are the pairs' keys.
proof fn lemma_pairs_to_map_dom(pairs: Seq<(Seq<char>, Seq<char>)>)
    ensures
        pairs_to_map(pairs).dom() == keys(pairs).to_set(),
    decreases pairs.len(),
{
    if pairs.len() > 0 {
        lemma_pairs_to_map_dom(pairs.drop_last());
        assert(keys(pairs) =~= keys(pairs.drop_last()).push(pairs.last().0));
        keys(pairs.drop_last()).lemma_push_to_set_commute(pairs.last().0);
    } else {
        assert(keys(pairs).to_set() =~= Set::empty());
    }
}

/// With distinct keys, each pair's value is what the map holds for its key.
proof fn lemma_pairs_to_map_value(pairs: Seq<(Seq<char>, Seq<char>)>, i: int)
    requires
        keys(pairs).no_duplicates(),
        0 <= i < pairs.len(),
    ensures
        pairs_to_map(pairs).dom().contains(pairs[i].0),
        pairs_to_map(pairs)[pairs[i].0] == pairs[i].1,
    decreases pairs.len(),
{
    if i < pairs.len() - 1 {
        assert(keys(pairs.drop_last()) =~= keys(pairs).drop_last());
        assert(keys(pairs)[i] != keys(pairs)[pairs.len() - 1]);
        lemma_pairs_to_map_value(pairs.drop_last(), i);
    }
}

/// Replacing the value of an existing key is inserting into the map.
proof fn lemma_pairs_to_map_update(pairs: Seq<(Seq<char>, Seq<char>)>, j: int, v: Seq<char>)
    requires
        keys(pairs).no_duplicates(),
        0 <= j < pairs.len(),
    ensures
        pairs_to_map(pairs.update(j, (pairs[j].0, v))) == pairs_to_map(pairs).insert(pairs[j].0, v),
    decreases pairs.len(),
{
    let k = pairs[j].0;
    let updated = pairs.update(j, (k, v));
    if j == pairs.len() - 1 {
        assert(updated.drop_last() =~= pairs.drop_last());
        assert(pairs_to_map(updated) =~= pairs_to_map(pairs).insert(k, v));
    } else {
        assert(keys(pairs.drop_last()) =~= keys(pairs).drop_last());
        assert(updated.drop_last() =~= pairs.drop_last().update(j, (k, v)));
        assert(keys(pairs)[j] != keys(pairs)[pairs.len() - 1]);
        lemma_pairs_to_map_update(pairs.drop_last(), j, v);
        assert(pairs_to_map(updated) =~= pairs_to_map(pairs).insert(k, v));
    }
}

/// A chunk id -> content hash map.
pub struct ChunkMap {
    entries: Vec<(String, String)>,
}

impl View for ChunkMap {
    type V = Map<Seq<char>, Seq<char>>;

    closed spec fn view(&self) -> Map<Seq<char>, Seq<char>> {
        pairs_to_map(pair_texts(self.entries@))
    }
}

impl ChunkMap {
    /// No id occurs twice among the entries.
    pub closed spec fn wf(&self) -> bool {
        keys(pair_texts(self.entries@)).no_duplicates()
    }

    /// The ids, in the order the map holds its entries.
    pub closed spec fn ids(&self) -> Seq<Seq<char>> {
        keys(pair_texts(self.entries@))
    }

    /// Each id of the map occurs once in `ids`, and `ids` holds nothing else.
    pub proof fn lemma_ids(&self)
        requires
            self.wf(),
        ensures
            self.ids().no_duplicates(),
            self.ids().to_set() == self@.dom(),
    {
        lemma_pairs_to_map_dom(pair_texts(self.entries@));
    }

    /// An empty map.
    pub fn new() -> (res: Self)
        ensures
            res.wf(),
            res@ == Map::<Seq<char>, Seq<char>>::empty(),
    {
        let res = ChunkMap { entries: Vec::new() };
        assert(pair_texts(res.entries@) =~= Seq::empty());
        res
    }

    /// The number of ids.
    pub fn len(&self) -> (res: usize)
        requires
            self.wf(),
        ensures
            res == self@.len(),
    {
        proof {
            lemma_pairs_to_map_dom(pair_texts(self.entries@));
            keys(pair_texts(self.entries@)).unique_seq_to_set();
        }
        self.entries.len()
    }

    /// Maps `id` to `hash`, replacing any hash it had.
    pub fn insert(&mut self, id: String, hash: String)
        requires
            old(self).wf(),
        ensures
            final(self).wf(),
            final(self)@ == old(self)@.insert(id@, hash@),
    {
        let mut j: usize = 0;
        while j < self.entries.len()
            invariant
                j <= self.entries.len(),
                self.entries@ == old(self).entries@,
                keys(pair_texts(self.entries@)).no_duplicates(),
                forall|k: int| 0 <= k < j ==> self.entries@[k].0@ != id@,
            decreases self.entries.len() - j,
        {
            if str_eq(self.entries[j].0.as_str(), id.as_str()) {
                let ghost before = pair_texts(self.entries@);
                proof {
                    lemma_pairs_to_map_update(before, j as int, hash@);
                }
                self.entries.set(j, (id, hash));
                assert(pair_texts(self.entries@) =~= before.update(j as int, (before[j as int].0, hash@)));
                assert(keys(pair_texts(self.entries@)) =~= keys(before));
                return;
            }
            j = j + 1;
        }
        let ghost before = pair_texts(self.entries@);
        self.entries.push((id, hash));
        let ghost after = pair_texts(self.entries@);
        assert(after =~= before.push((id@, hash@)));
        assert(after.drop_last() =~= before);
        assert(pairs_to_map(after) == pairs_to_map(before).insert(id@, hash@));
        assert(keys(after) =~= keys(before).push(id@));
        assert forall|a: int, b: int| 0 <= a < b < keys(after).len() implies keys(after)[a] != keys(after)[b] by {
            if b == before.len() {
                assert(keys(after)[a] == self.entries@[a].0@);
                assert(keys(after)[b] == id@);
            } else {
                assert(keys(after)[a] == keys(before)[a]);
                assert(keys(after)[b] == keys(before)[b]);
            }
        }
    }
}

/// The text of a property key: a plain identifier's name, a string literal's
/// value, or a numeric literal's source text.
pub open spec fn spec_property_key_to_string(key: Expr) -> Option<Seq<char>> {
    match key {
        Expr::Identifier { name } => Some(name@),
        Expr::StringLiteral { value, .. } => Some(value@),
        Expr::NumericLiteral { raw: Some(r), .. } => Some(r@),
        _ => None,
    }
}

/// The id -> hash pairs of object members that are all `<key>: "<string>"`; none
/// where any member is another kind.
pub open spec fn member_pairs(props: Seq<Expr>) -> Option<Seq<(Seq<char>, Seq<char>)>>
    decreases props.len(),
{
    if props.len() == 0 {
        Some(Seq::empty())
    } else {
        match member_pairs(props.drop_last()) {
            None => None,
            Some(pairs) => match props.last() {
                Expr::Property { key, value } => match (spec_property_key_to_string(*key), *value) {
                    (Some(k), Expr::StringLiteral { value: v, .. }) => Some(pairs.push((k, v@))),
                    _ => None,
                },
                _ => None,
            },
        }
    }
}

/// The chunk map an object literal spells out: every member `<id>: "<hash>"`, and
/// at least one member.
pub open spec fn spec_object_expression_to_chunk_map(e: Expr) -> Option<Map<Seq<char>, Seq<char>>> {
    match e {
        Expr::Object { properties } => match member_pairs(properties@) {
            Some(pairs) => if pairs.len() == 0 { None } else { Some(pairs_to_map(pairs)) },
            None => None,
        },
        _ => None,
    }
}

/// The first chunk map, in pre-order, among the nodes `ns`.
pub open spec fn first_chunk_map(ns: Seq<Expr>) -> Option<Map<Seq<char>, Seq<char>>>
    decreases ns.len(),
{
    if ns.len() == 0 {
        None
    } else {
        match spec_object_expression_to_chunk_map(ns[0]) {
            Some(m) => Some(m),
            None => first_chunk_map(ns.skip(1)),
        }
    }
}

/// The first object literal nested in `e` (in pre-order) that spells out a chunk map.
pub open spec fn spec_find_chunk_map_in_expression(e: Expr) -> Option<Map<Seq<char>, Seq<char>>> {
    first_chunk_map(walk(e, true))
}

/// The assignment target is `<x>.<member>` or `<x>["<member>"]`.
pub open spec fn spec_is_chunk_filename_target(target: Expr, member: Seq<char>) -> bool {
    match target {
        Expr::StaticMember { property, .. } => property@ == member,
        Expr::ComputedMember { expression, .. } => match *expression {
            Expr::StringLiteral { value, .. } => value@ == member,
            _ => false,
        },
        _ => false,
    }
}

/// The chunk map and public path found so far after the assignments among `ns`:
/// the first `.u` assignment whose value holds a chunk map, and the first `.p`
/// assignment of a string literal.
pub open spec fn chunk_map_state(ns: Seq<Expr>) -> (Option<Map<Seq<char>, Seq<char>>>, Option<Seq<char>>)
    decreases ns.len(),
{
    if ns.len() == 0 {
        (None, None)
    } else {
        let (chunk_map, public_path) = chunk_map_state(ns.drop_last());
        match ns.last() {
            Expr::Assignment { target, right } => (
                if chunk_map is None && spec_is_chunk_filename_target(*target, "u"@) {
                    spec_find_chunk_map_in_expression(*right)
                } else {
                    chunk_map
                },
                if public_path is None && spec_is_chunk_filename_target(*target, "p"@) {
                    match *right {
                        Expr::StringLiteral { value, .. } => Some(value@),
                        _ => None,
                    }
                } else {
                    public_path
                },
            ),
            _ => (chunk_map, public_path),
        }
    }
}

/// Webpack's chunk map and public path, read from a bundle's runtime; none where
/// the bundle has no recognizable chunk map.
pub open spec fn spec_extract_chunk_map(program: Program) -> Option<(Map<Seq<char>, Seq<char>>, Option<Seq<char>>)> {
    let (chunk_map, public_path) = chunk_map_state(walk_list(program.body@, true));
    match chunk_map {
        Some(m) => Some((m, public_path)),
        None => None,
    }
}

/// `<public path><id>.<hash>.js`
pub open spec fn chunk_filename(public_path: Seq<char>, id: Seq<char>, hash: Seq<char>) -> Seq<char> {
    public_path + id + "."@ + hash + ".js"@
}

/// The map a chunk map of the library holds, where there is one.
pub open spec fn opt_map(m: Option<ChunkMap>) -> Option<Map<Seq<char>, Seq<char>>> {
    match m {
        Some(c) => Some(c@),
        None => None,
    }
}

/// The map holds no id twice, where there is one.
pub open spec fn opt_wf(m: Option<ChunkMap>) -> bool {
    match m {
        Some(c) => c.wf(),
        None => true,
    }
}

/// The text of a property key: a plain identifier's name, a string literal's
/// value, or a numeric literal's source text.
pub fn property_key_to_string(key: &Expr) -> (res: Option<String>)
    ensures
        opt_view(res) == spec_property_key_to_string(*key),
{
    match key {
        Expr::Identifier { name } => Some(name.clone()),
        Expr::StringLiteral { value, .. } => Some(value.clone()),
        Expr::NumericLiteral { raw: Some(r), .. } => Some(r.clone()),
        _ => None,
    }
}

/// The chunk map an object literal made entirely of `<id>: "<hash>"` members
/// spells out; none for any other node or an empty object.
pub fn object_expression_to_chunk_map(obj: &Expr) -> (res: Option<ChunkMap>)
    ensures
        opt_wf(res),
        opt_map(res) == spec_object_expression_to_chunk_map(*obj),
{
    let properties = match obj {
        Expr::Object { properties } => properties,
        _ => return None,
    };
    let mut map = ChunkMap::new();
    let ghost mut pairs: Seq<(Seq<char>, Seq<char>)> = Seq::empty();
    let mut i: usize = 0;
    assert(properties@.take(0) =~= Seq::<Expr>::empty());
    while i < properties.len()
        invariant
            i <= properties.len(),
            map.wf(),
            member_pairs(properties@.take(i as int)) == Some(pairs),
            spec_object_expression_to_chunk_map(*obj) == match member_pairs(properties@) {
                Some(all) => if all.len() == 0 { None } else { Some(pairs_to_map(all)) },
                None => None,
            },
            map@ == pairs_to_map(pairs),
            pairs.len() == i,
        decreases properties.len() - i,
    {
        assert(properties@.take(i + 1).drop_last() =~= properties@.take(i as int));
        assert(properties@.take(i + 1).last() == properties@[i as int]);
        let (key, value) = match &properties[i] {
            Expr::Property { key, value } => (key, value),
            _ => {
                proof { lemma_member_pairs_none_extends(properties@, (i + 1) as int); }
                return None;
            },
        };
        let k = match property_key_to_string(key) {
            Some(k) => k,
            None => {
                proof { lemma_member_pairs_none_extends(properties@, (i + 1) as int); }
                return None;
            },
        };
        let v = match &**value {
            Expr::StringLiteral { value: v, .. } => v.clone(),
            _ => {
                proof { lemma_member_pairs_none_extends(properties@, (i + 1) as int); }
                return None;
            },
        };
        proof {
            let extended = pairs.push((k@, v@));
            assert(extended.drop_last() =~= pairs);
            pairs = extended;
        }
        map.insert(k, v);
        i = i + 1;
    }
    assert(properties@.take(properties.len() as int) =~= properties@);
    if map.len() == 0 {
        proof {
            lemma_pairs_to_map_dom(pairs);
            if pairs.len() > 0 {
                assert(keys(pairs).to_set().contains(keys(pairs)[0]));
            }
        }
        None
    } else {
        Some(map)
    }
}

/// Once a member fails to convert, no longer prefix converts.
proof fn lemma_member_pairs_none_extends(props: Seq<Expr>, n: int)
    requires
        0 < n <= props.len(),
        member_pairs(props.take(n)) is None,
    ensures
        member_pairs(props) is None,
    decreases props.len() - n,
{
    if n < props.len() {
        assert(props.take(n + 1).drop_last() =~= props.take(n));
        lemma_member_pairs_none_extends(props, n + 1);
    } else {
        assert(props.take(n) =~= props);
    }
}

/// Finds the first object literal, among the nodes it is shown, that spells out
/// a chunk map.
pub struct ObjectLiteralFinder {
    pub found: Option<ChunkMap>,
}

impl ObjectLiteralFinder {
    /// Takes the chunk map of `it`, unless one was found already.
    pub fn visit_object_expression(&mut self, it: &Expr)
        requires
            opt_wf(old(self).found),
        ensures
            opt_wf(final(self).found),
            opt_map(final(self).found) == match opt_map(old(self).found) {
                Some(m) => Some(m),
                None => spec_object_expression_to_chunk_map(*it),
            },
    {
        if self.found.is_none() {
            self.found = object_expression_to_chunk_map(it);
        }
    }
}

/// Walk every object literal nested in `expr` and return the first one that
/// looks like a chunk id -> hash map.
pub fn find_chunk_map_in_expression(expr: &Expr) -> (res: Option<ChunkMap>)
    ensures
        opt_wf(res),
        opt_map(res) == spec_find_chunk_map_in_expression(*expr),
{
    let mut ns: Vec<&Expr> = Vec::new();
    collect_nodes(expr, true, &mut ns);
    let ghost all = walk(*expr, true);
    assert(nodes(ns@) =~= all);
    let mut finder = ObjectLiteralFinder { found: None };
    let mut i: usize = 0;
    assert(all.skip(0) =~= all);
    while i < ns.len()
        invariant
            i <= ns.len(),
            nodes(ns@) == all,
            opt_wf(finder.found),
            first_chunk_map(all) == match opt_map(finder.found) {
                Some(m) => Some(m),
                None => first_chunk_map(all.skip(i as int)),
            },
        decreases ns.len() - i,
    {
        assert(all.skip(i as int)[0] == *ns@[i as int]);
        assert(all.skip(i as int).skip(1) =~= all.skip(i + 1));
        if let Expr::Object { .. } = ns[i] {
            finder.visit_object_expression(ns[i]);
        }
        i = i + 1;
    }
    finder.found
}

/// Whether the assignment target is `<x>.<member>` or `<x>["<member>"]`.
pub fn is_chunk_filename_target(target: &Expr, member_name: &str) -> (res: bool)
    ensures
        res == spec_is_chunk_filename_target(*target, member_name@),
{
    match target {
        Expr::StaticMember { property, .. } => str_eq(property.as_str(), member_name),
        Expr::ComputedMember { expression, .. } => match &**expression {
            Expr::StringLiteral { value, .. } => str_eq(value.as_str(), member_name),
            _ => false,
        },
        _ => false,
    }
}

/// Whether the assignment target is webpack's public path, `<x>.p`.
pub fn is_public_path_target(target: &Expr) -> (res: bool)
    ensures
        res == spec_is_chunk_filename_target(*target, "p"@),
{
    is_chunk_filename_target(target, "p")
}

/// Reads webpack's chunk map and public path from the assignments it visits.
pub struct ChunkMapVisitor {
    pub chunk_map: Option<ChunkMap>,
    pub public_path: Option<String>,
}

impl ChunkMapVisitor {
    /// A visitor that has found neither yet.
    pub fn new() -> (res: Self)
        ensures
            res.chunk_map is None,
            res.public_path is None,
    {
        ChunkMapVisitor { chunk_map: None, public_path: None }
    }

    /// At an assignment: the chunk map of the first `<x>.u = ...` whose value
    /// holds one, and the first `<x>.p = "<string>"`.
    pub fn visit_assignment_expression(&mut self, it: &Expr)
        requires
            opt_wf(old(self).chunk_map),
        ensures
            opt_wf(final(self).chunk_map),
            (opt_map(final(self).chunk_map), opt_view(final(self).public_path)) == match *it {
                Expr::Assignment { target, right } => (
                    if old(self).chunk_map is None && spec_is_chunk_filename_target(*target, "u"@) {
                        spec_find_chunk_map_in_expression(*right)
                    } else {
                        opt_map(old(self).chunk_map)
                    },
                    if old(self).public_path is None && spec_is_chunk_filename_target(*target, "p"@) {
                        match *right {
                            Expr::StringLiteral { value, .. } => Some(value@),
                            _ => None,
                        }
                    } else {
                        opt_view(old(self).public_path)
                    },
                ),
                _ => (opt_map(old(self).chunk_map), opt_view(old(self).public_path)),
            },
    {
        if let Expr::Assignment { target, right } = it {
            if self.chunk_map.is_none() && is_chunk_filename_target(target, "u") {
                self.chunk_map = find_chunk_map_in_expression(right);
            }
            if self.public_path.is_none() && is_public_path_target(target) {
                if let Expr::StringLiteral { value, .. } = &**right {
                    self.public_path = Some(value.clone());
                }
            }
        }
    }
}

/// Extracts webpack's chunk id -> hash map and public path from a bundle's
/// source text, by locating the `__webpack_require__.u` filename-resolver
/// assignment. Returns `None` where the text does not parse, or holds no
/// recognizable chunk filename map (it is not the webpack runtime chunk, or the
/// build spells the map some other way).
pub fn extract_chunk_map(source: &str) -> (res: Option<(ChunkMap, Option<String>)>)
    ensures
        match spec_parse_program(source@) {
            Some(program) => match res {
                Some((m, p)) => m.wf() && spec_extract_chunk_map(program) == Some((m@, opt_view(p))),
                None => spec_extract_chunk_map(program) is None,
            },
            None => res is None,
        },
{
    match parse_program(source) {
        Some(program) => chunk_map_of_program(&program),
        None => None,
    }
}

/// The chunk id -> hash map and public path of a parsed bundle (see
/// `extract_chunk_map`).
pub fn chunk_map_of_program(program: &Program) -> (res: Option<(ChunkMap, Option<String>)>)
    ensures
        match res {
            Some((m, p)) => m.wf() && spec_extract_chunk_map(*program) == Some((m@, opt_view(p))),
            None => spec_extract_chunk_map(*program) is None,
        },
{
    let mut ns: Vec<&Expr> = Vec::new();
    collect_list(&program.body, true, &mut ns);
    let ghost all = walk_list(program.body@, true);
    assert(nodes(ns@) =~= all);
    let mut visitor = ChunkMapVisitor::new();
    let mut i: usize = 0;
    while i < ns.len()
        invariant
            i <= ns.len(),
            nodes(ns@) == all,
            opt_wf(visitor.chunk_map),
            chunk_map_state(all.take(i as int)) == (opt_map(visitor.chunk_map), opt_view(visitor.public_path)),
        decreases ns.len() - i,
    {
        assert(all.take(i + 1).drop_last() =~= all.take(i as int));
        assert(all.take(i + 1).last() == *ns@[i as int]);
        visitor.visit_assignment_expression(ns[i]);
        i = i + 1;
    }
    assert(all.take(ns.len() as int) =~= all);
    match visitor.chunk_map {
        Some(m) => Some((m, visitor.public_path)),
        None => None,
    }
}

/// The filenames webpack requests for every chunk of `chunk_map`, by its default
/// `{id}.{hash}.js` chunk filename template under `public_path`: one name per
/// entry, in the order of the map's ids.
pub fn chunk_filenames(chunk_map: &ChunkMap, public_path: Option<&str>) -> (res: Vec<String>)
    requires
        chunk_map.wf(),
    ensures
        views(res@) == chunk_map.ids().map_values(
            |id: Seq<char>| chunk_filename(
                match public_path { Some(p) => p@, None => Seq::empty() },
                id,
                chunk_map@[id],
            ),
        ),
        res@.len() == chunk_map@.len(),
        views(res@).to_set() == chunk_map@.dom().map(
            |id: Seq<char>| chunk_filename(
                match public_path { Some(p) => p@, None => Seq::empty() },
                id,
                chunk_map@[id],
            ),
        ),
{
    let prefix: &str = match public_path {
        Some(p) => p,
        None => "",
    };
    proof {
        reveal_strlit("");
    }
    let ghost pp: Seq<char> = match public_path { Some(p) => p@, None => Seq::empty() };
    assert(prefix@ == pp);
    let ghost entries = pair_texts(chunk_map.entries@);
    let ghost m = chunk_map@;
    let mut out: Vec<String> = Vec::new();
    let mut i: usize = 0;
    while i < chunk_map.entries.len()
        invariant
            i <= chunk_map.entries.len(),
            entries == pair_texts(chunk_map.entries@),
            prefix@ == pp,
            views(out@) =~= entries.take(i as int).map_values(
                |e: (Seq<char>, Seq<char>)| chunk_filename(pp, e.0, e.1),
            ),
        decreases chunk_map.entries.len() - i,
    {
        let mut name = String::from_str(prefix);
        name.append(chunk_map.entries[i].0.as_str());
        name.append(".");
        name.append(chunk_map.entries[i].1.as_str());
        name.append(".js");
        let ghost before = views(out@);
        out.push(name);
        assert(entries.take(i + 1) =~= entries.take(i as int).push(entries[i as int]));
        assert(views(out@) =~= before.push(name@));
        i = i + 1;
    }
    assert(entries.take(entries.len() as int) =~= entries);
    let ghost f = |id: Seq<char>| chunk_filename(pp, id, m[id]);
    proof {
        assert forall|i: int| 0 <= i < entries.len() implies #[trigger] views(out@)[i] == f(keys(entries)[i]) by {
            lemma_pairs_to_map_value(entries, i);
        }
        assert(views(out@) =~= keys(entries).map_values(f));
        lemma_pairs_to_map_dom(entries);
        keys(entries).unique_seq_to_set();
        assert forall|x: Seq<char>| views(out@).to_set().contains(x) implies m.dom().map(f).contains(x) by {
            let i = choose|i: int| 0 <= i < views(out@).len() && views(out@)[i] == x;
            lemma_pairs_to_map_value(entries, i);
            assert(keys(entries)[i] == entries[i].0);
            assert(f(entries[i].0) == x);
        }
        assert forall|x: Seq<char>| m.dom().map(f).contains(x) implies views(out@).to_set().contains(x) by {
            let k = choose|k: Seq<char>| m.dom().contains(k) && f(k) == x;
            assert(keys(entries).to_set().contains(k));
            let i = choose|i: int| 0 <= i < keys(entries).len() && keys(entries)[i] == k;
            lemma_pairs_to_map_value(entries, i);
            assert(views(out@)[i] == x);
        }
        assert(views(out@).to_set() =~= m.dom().map(f));
    }
    out
}

/// A chunk's filename is the public path followed by its filename under no
/// public path; with no public path it is `{id}.{hash}.js`.
pub proof fn lemma_public_path_is_a_prefix(public_path: Seq<char>, id: Seq<char>, hash: Seq<char>)
    ensures
        chunk_filename(public_path, id, hash) == public_path + chunk_filename(Seq::empty(), id, hash),
        chunk_filename(Seq::empty(), id, hash) == id + "."@ + hash + ".js"@,
{
    assert(chunk_filename(public_path, id, hash) =~= public_path + chunk_filename(Seq::empty(), id, hash));
    assert(chunk_filename(Seq::empty(), id, hash) =~= id + "."@ + hash + ".js"@);
}

/// Whether an object member is `<key>: "<string>"`, with a key that names a
/// property.
pub open spec fn is_id_hash_member(member: Expr) -> bool {
    match member {
        Expr::Property { key, value } => spec_property_key_to_string(*key) is Some
            && *value matches Expr::StringLiteral { .. },
        _ => false,
    }
}

/// The id an `<key>: "<string>"` member names.
pub open spec fn member_id(member: Expr) -> Seq<char> {
    match member {
        Expr::Property { key, .. } => match spec_property_key_to_string(*key) {
            Some(k) => k,
            None => Seq::empty(),
        },
        _ => Seq::empty(),
    }
}

/// The string value of an `<key>: "<string>"` member.
pub open spec fn member_hash(member: Expr) -> Seq<char> {
    match member {
        Expr::Property { value, .. } => match *value {
            Expr::StringLiteral { value: v, .. } => v@,
            _ => Seq::empty(),
        },
        _ => Seq::empty(),
    }
}

/// The pairs of members that are all `<key>: "<string>"` are their ids and
/// values, one per member.
proof fn lemma_member_pairs_are_the_members(props: Seq<Expr>)
    ensures
        member_pairs(props) is Some <==> forall|i: int| 0 <= i < props.len() ==> is_id_hash_member(#[trigger] props[i]),
        member_pairs(props) matches Some(pairs) ==> pairs.len() == props.len()
            && forall|i: int| 0 <= i < props.len() ==> #[trigger] pairs[i] == (member_id(props[i]), member_hash(props[i])),
    decreases props.len(),
{
    if props.len() > 0 {
        let init = props.drop_last();
        lemma_member_pairs_are_the_members(init);
        assert forall|i: int| 0 <= i < init.len() implies init[i] == props[i] by {}
        if !is_id_hash_member(props.last()) {
            assert(!is_id_hash_member(props[props.len() - 1]));
        }
        if member_pairs(init) is None {
            let i = choose|i: int| 0 <= i < init.len() && !is_id_hash_member(#[trigger] init[i]);
            assert(!is_id_hash_member(props[i]));
        }
    }
}

/// With no later pair for the same key, a pair's value is what the map holds
/// for its key.
proof fn lemma_pairs_to_map_last_value(pairs: Seq<(Seq<char>, Seq<char>)>, i: int)
    requires
        0 <= i < pairs.len(),
        forall|j: int| i < j < pairs.len() ==> #[trigger] pairs[j].0 != pairs[i].0,
    ensures
        pairs_to_map(pairs).dom().contains(pairs[i].0),
        pairs_to_map(pairs)[pairs[i].0] == pairs[i].1,
    decreases pairs.len(),
{
    if i < pairs.len() - 1 {
        assert(pairs[pairs.len() - 1].0 != pairs[i].0);
        lemma_pairs_to_map_last_value(pairs.drop_last(), i);
    }
}

/// An object literal spells out a chunk map exactly when it has at least one
/// member and every member is `<id>: "<hash>"`; the map then holds every
/// member's id, no other id, and for each id the hash of its last member.
pub proof fn lemma_object_literal_spells_its_chunk_map(properties: Vec<Expr>)
    ensures
        ({
            let members = properties@;
            let found = spec_object_expression_to_chunk_map(Expr::Object { properties });
            &&& (found is Some <==> members.len() > 0
                && forall|i: int| 0 <= i < members.len() ==> is_id_hash_member(#[trigger] members[i]))
            &&& (found matches Some(m) ==> {
                &&& forall|i: int| 0 <= i < members.len() ==> m.dom().contains(member_id(#[trigger] members[i]))
                &&& forall|k: Seq<char>| #[trigger] m.dom().contains(k)
                    ==> exists|i: int| 0 <= i < members.len() && member_id(#[trigger] members[i]) == k
                &&& forall|i: int| 0 <= i < members.len()
                    && (forall|j: int| i < j < members.len() ==> member_id(#[trigger] members[j]) != member_id(members[i]))
                    ==> m[member_id(#[trigger] members[i])] == member_hash(members[i])
            })
        }),
{
    let members = properties@;
    lemma_member_pairs_are_the_members(members);
    match member_pairs(members) {
        Some(pairs) => {
            lemma_pairs_to_map_dom(pairs);
            assert forall|i: int| 0 <= i < members.len() implies #[trigger] keys(pairs)[i] == member_id(members[i]) by {
                assert(pairs[i] == (member_id(members[i]), member_hash(members[i])));
            }
            assert forall|i: int| 0 <= i < members.len() implies pairs_to_map(pairs).dom().contains(member_id(#[trigger] members[i])) by {
                assert(keys(pairs)[i] == member_id(members[i]));
                assert(keys(pairs).to_set().contains(keys(pairs)[i]));
            }
            assert forall|k: Seq<char>| #[trigger] pairs_to_map(pairs).dom().contains(k)
                implies exists|i: int| 0 <= i < members.len() && member_id(#[trigger] members[i]) == k by {
                let i = choose|i: int| 0 <= i < keys(pairs).len() && keys(pairs)[i] == k;
                assert(member_id(members[i]) == k);
            }
            assert forall|i: int| 0 <= i < members.len()
                && (forall|j: int| i < j < members.len() ==> member_id(#[trigger] members[j]) != member_id(members[i]))
                implies pairs_to_map(pairs)[member_id(#[trigger] members[i])] == member_hash(members[i]) by {
                assert forall|j: int| i < j < pairs.len() implies #[trigger] pairs[j].0 != pairs[i].0 by {
                    assert(pairs[j] == (member_id(members[j]), member_hash(members[j])));
                    assert(member_id(members[j]) != member_id(members[i]));
                }
                lemma_pairs_to_map_last_value(pairs, i);
            }
        },
        None => {},
    }
}

} // verus!
