//! Character and string helpers shared by the extractors.

use vstd::prelude::*;

verus! {

/// The text of an optional string.
pub open spec fn opt_view(o: Option<String>) -> Option<Seq<char>> {
    match o {
        Some(s) => Some(s@),
        None => None,
    }
}

/// The texts of a sequence of strings.
pub open spec fn views(v: Seq<String>) -> Seq<Seq<char>> {
    v.map_values(|s: String| s@)
}

/// One of the two quote characters that delimit a JavaScript string literal.
pub open spec fn is_quote(c: char) -> bool {
    c == '"' || c == '\''
}

/// `raw` with one leading and one trailing quote removed, where both are present
/// (they need not match); `raw` itself otherwise.
pub open spec fn spec_strip_quotes(raw: Seq<char>) -> Seq<char> {
    if raw.len() >= 2 && is_quote(raw[0]) && is_quote(raw[raw.len() - 1]) {
        raw.subrange(1, raw.len() - 1)
    } else {
        raw
    }
}

/// Strips one layer of surrounding `"`/`'` from a string literal's raw source text.
pub fn strip_quotes(raw: &str) -> (res: String)
    ensures
        res@ == spec_strip_quotes(raw@),
{
    let n = raw.unicode_len();
    if n >= 2 && is_quote_char(raw.get_char(0)) && is_quote_char(raw.get_char(n - 1)) {
        raw.substring_char(1, n - 1).to_string()
    } else {
        raw.to_string()
    }
}

fn is_quote_char(c: char) -> (res: bool)
    ensures
        res == is_quote(c),
{
    c == '"' || c == '\''
}

} // verus!

verus! {

/// Whether `s` begins with `prefix`.
pub open spec fn spec_starts_with(s: Seq<char>, prefix: Seq<char>) -> bool {
    prefix.len() <= s.len() && s.subrange(0, prefix.len() as int) == prefix
}

/// Whether `s` ends with `suffix`.
pub open spec fn spec_ends_with(s: Seq<char>, suffix: Seq<char>) -> bool {
    suffix.len() <= s.len() && s.subrange(s.len() - suffix.len(), s.len() as int) == suffix
}

/// Whether `s` begins with `prefix`.
pub fn starts_with(s: &str, prefix: &str) -> (res: bool)
    ensures
        res == spec_starts_with(s@, prefix@),
{
    let n = s.unicode_len();
    let m = prefix.unicode_len();
    if m > n {
        return false;
    }
    let mut i: usize = 0;
    while i < m
        invariant
            m <= n,
            n == s@.len(),
            m == prefix@.len(),
            i <= m,
            forall|j: int| 0 <= j < i ==> s@[j] == prefix@[j],
        decreases m - i,
    {
        if s.get_char(i) != prefix.get_char(i) {
            assert(s@.subrange(0, m as int)[i as int] != prefix@[i as int]);
            return false;
        }
        i = i + 1;
    }
    assert(s@.subrange(0, m as int) =~= prefix@);
    true
}

/// Whether `s` ends with `suffix`.
pub fn ends_with(s: &str, suffix: &str) -> (res: bool)
    ensures
        res == spec_ends_with(s@, suffix@),
{
    let n = s.unicode_len();
    let m = suffix.unicode_len();
    if m > n {
        return false;
    }
    let d = n - m;
    let mut i: usize = 0;
    while i < m
        invariant
            m <= n,
            d == n - m,
            n == s@.len(),
            m == suffix@.len(),
            i <= m,
            forall|j: int| 0 <= j < i ==> s@[d + j] == suffix@[j],
        decreases m - i,
    {
        if s.get_char(d + i) != suffix.get_char(i) {
            assert(s@.subrange(d as int, n as int)[i as int] != suffix@[i as int]);
            return false;
        }
        i = i + 1;
    }
    assert(s@.subrange(d as int, n as int) =~= suffix@);
    true
}

/// Whether the two strings hold the same text.
pub fn str_eq(a: &str, b: &str) -> (res: bool)
    ensures
        res == (a@ == b@),
{
    let n = a.unicode_len();
    let m = b.unicode_len();
    if n != m {
        return false;
    }
    assert(a@.subrange(0, m as int) =~= a@);
    starts_with(a, b)
}

/// The characters of `s`, in order.
pub fn chars_of(s: &str) -> (res: Vec<char>)
    ensures
        res@ == s@,
{
    let mut out: Vec<char> = Vec::new();
    for c in it: s.chars()
        invariant
            out@ == it.seq().take(it.index() as int),
            it.seq() == s@,
    {
        out.push(c);
    }
    out
}

} // verus!

verus! {

/// Appends `s` to `v` unless `v` already holds the same text; tells whether it
/// appended.
pub fn push_unique(v: &mut Vec<String>, s: String) -> (added: bool)
    ensures
        added == !views(old(v)@).contains(s@),
        views(final(v)@) == if added { views(old(v)@).push(s@) } else { views(old(v)@) },
{
    let mut i: usize = 0;
    while i < v.len()
        invariant
            i <= v.len(),
            forall|j: int| 0 <= j < i ==> v@[j]@ != s@,
        decreases v.len() - i,
    {
        if str_eq(v[i].as_str(), s.as_str()) {
            assert(views(v@)[i as int] == s@);
            return false;
        }
        i = i + 1;
    }
    proof {
        if views(v@).contains(s@) {
            let k = choose|k: int| 0 <= k < views(v@).len() && views(v@)[k] == s@;
            assert(v@[k]@ == s@);
        }
    }
    let ghost before = v@;
    v.push(s);
    assert(views(v@) =~= views(before).push(s@));
    true
}

/// `v` without repeated texts: the first of each kept, in order.
pub fn dedup(v: Vec<String>) -> (res: Vec<String>)
    ensures
        views(res@).no_duplicates(),
        views(res@).to_set() == views(v@).to_set(),
{
    let mut out: Vec<String> = Vec::new();
    let mut i: usize = 0;
    while i < v.len()
        invariant
            i <= v.len(),
            views(out@).no_duplicates(),
            views(out@).to_set() == views(v@.take(i as int)).to_set(),
        decreases v.len() - i,
    {
        let ghost before = views(out@);
        let s = v[i].clone();
        let added = push_unique(&mut out, s);
        assert(v@.take(i + 1) =~= v@.take(i as int).push(v@[i as int]));
        assert(views(v@.take(i + 1)) =~= views(v@.take(i as int)).push(v@[i as int]@));
        proof {
            views(v@.take(i as int)).lemma_push_to_set_commute(v@[i as int]@);
            if added {
                before.lemma_push_to_set_commute(v@[i as int]@);
            } else {
                assert(views(v@.take(i as int)).to_set().contains(v@[i as int]@));
                assert(views(v@.take(i as int)).to_set().insert(v@[i as int]@) =~= views(v@.take(i as int)).to_set());
            }
        }
        i = i + 1;
    }
    assert(v@.take(v.len() as int) =~= v@);
    out
}

} // verus!

verus! {

/// The first position at or after `from` where `pat` occurs in `s`.
pub open spec fn find_from(s: Seq<char>, pat: Seq<char>, from: int) -> Option<int>
    decreases s.len() + 1 - from,
{
    if from < 0 || from + pat.len() > s.len() {
        None
    } else if s.subrange(from, from + pat.len()) == pat {
        Some(from)
    } else {
        find_from(s, pat, from + 1)
    }
}

/// The first position where `pat` occurs in `s`.
pub open spec fn spec_find(s: Seq<char>, pat: Seq<char>) -> Option<int> {
    find_from(s, pat, 0)
}

/// The first position where `pat` occurs in `s`.
pub fn find(s: &Vec<char>, pat: &Vec<char>) -> (res: Option<usize>)
    ensures
        match res {
            Some(i) => spec_find(s@, pat@) == Some(i as int) && i + pat@.len() <= s@.len(),
            None => spec_find(s@, pat@) is None,
        },
{
    let n = s.len();
    let m = pat.len();
    if m > n {
        return None;
    }
    let mut i: usize = 0;
    while i <= n - m
        invariant
            m <= n,
            n == s@.len(),
            m == pat@.len(),
            i <= n - m + 1,
            spec_find(s@, pat@) == find_from(s@, pat@, i as int),
        decreases n - m + 1 - i,
    {
        let mut j: usize = 0;
        let mut matched = true;
        while j < m
            invariant
                m <= n,
                i + m <= n,
                n == s@.len(),
                m == pat@.len(),
                j <= m,
                matched == (forall|k: int| 0 <= k < j ==> s@[i + k] == pat@[k]),
            decreases m - j,
        {
            if s[i + j] != pat[j] {
                matched = false;
            }
            j = j + 1;
        }
        if matched {
            assert(s@.subrange(i as int, i + m) =~= pat@);
            return Some(i);
        }
        assert(exists|k: int| 0 <= k < m && s@[i + k] != pat@[k]);
        assert(s@.subrange(i as int, i + m) != pat@) by {
            let k = choose|k: int| 0 <= k < m && s@[i + k] != pat@[k];
            assert(s@.subrange(i as int, i + m)[k] == s@[i + k]);
        }
        i = i + 1;
    }
    None
}

/// The position of the last `c` in `s`.
pub open spec fn spec_rfind_char(s: Seq<char>, c: char) -> Option<int>
    decreases s.len(),
{
    if s.len() == 0 {
        None
    } else if s.last() == c {
        Some(s.len() - 1)
    } else {
        spec_rfind_char(s.drop_last(), c)
    }
}

/// The position of the last `c` in `s`.
pub fn rfind_char(s: &Vec<char>, c: char) -> (res: Option<usize>)
    ensures
        match res {
            Some(i) => spec_rfind_char(s@, c) == Some(i as int) && i < s@.len(),
            None => spec_rfind_char(s@, c) is None,
        },
{
    let mut i: usize = s.len();
    assert(s@.take(i as int) =~= s@);
    while i > 0
        invariant
            i <= s@.len(),
            spec_rfind_char(s@, c) == spec_rfind_char(s@.take(i as int), c),
        decreases i,
    {
        assert(s@.take(i as int).drop_last() =~= s@.take(i - 1));
        if s[i - 1] == c {
            return Some(i - 1);
        }
        i = i - 1;
    }
    None
}

/// The characters of `s` from `from` up to (not including) `to`, as a string.
pub fn string_of(s: &Vec<char>, from: usize, to: usize) -> (res: String)
    requires
        from <= to <= s@.len(),
    ensures
        res@ == s@.subrange(from as int, to as int),
{
    let mut out = String::new();
    let mut i = from;
    while i < to
        invariant
            from <= i <= to,
            to <= s@.len(),
            out@ == s@.subrange(from as int, i as int),
        decreases to - i,
    {
        out.push(s[i]);
        assert(s@.subrange(from as int, i + 1) =~= s@.subrange(from as int, i as int).push(s@[i as int]));
        i = i + 1;
    }
    out
}

/// `String::push` appends one character.
pub assume_specification[ String::push ](s: &mut String, ch: char)
    ensures
        final(s)@ == old(s)@.push(ch),
;

} // verus!

verus! {

/// `c` has the Unicode White_Space property, which is what `char::is_whitespace`
/// tests.
pub open spec fn spec_is_whitespace(c: char) -> bool {
    ('\u{9}' <= c && c <= '\u{d}') || c == ' ' || c == '\u{85}' || c == '\u{a0}' || c == '\u{1680}'
        || ('\u{2000}' <= c && c <= '\u{200a}') || c == '\u{2028}' || c == '\u{2029}'
        || c == '\u{202f}' || c == '\u{205f}' || c == '\u{3000}'
}

/// Whether `c` has the Unicode White_Space property.
pub fn is_whitespace(c: char) -> (res: bool)
    ensures
        res == spec_is_whitespace(c),
{
    ('\u{9}' <= c && c <= '\u{d}') || c == ' ' || c == '\u{85}' || c == '\u{a0}' || c == '\u{1680}'
        || ('\u{2000}' <= c && c <= '\u{200a}') || c == '\u{2028}' || c == '\u{2029}'
        || c == '\u{202f}' || c == '\u{205f}' || c == '\u{3000}'
}

/// `s` without its leading whitespace.
pub open spec fn trim_start(s: Seq<char>) -> Seq<char>
    decreases s.len(),
{
    if s.len() > 0 && spec_is_whitespace(s[0]) {
        trim_start(s.skip(1))
    } else {
        s
    }
}

/// `s` without its trailing whitespace.
pub open spec fn trim_end(s: Seq<char>) -> Seq<char>
    decreases s.len(),
{
    if s.len() > 0 && spec_is_whitespace(s.last()) {
        trim_end(s.drop_last())
    } else {
        s
    }
}

/// `s` without its leading and trailing whitespace, as `str::trim` gives it.
pub open spec fn spec_trim(s: Seq<char>) -> Seq<char> {
    trim_end(trim_start(s))
}

/// The positions `[start, end)` of `v[from..to]` without its leading and
/// trailing whitespace.
pub fn trim_range(v: &Vec<char>, from: usize, to: usize) -> (res: (usize, usize))
    requires
        from <= to <= v@.len(),
    ensures
        from <= res.0 <= res.1 <= to,
        v@.subrange(res.0 as int, res.1 as int) == spec_trim(v@.subrange(from as int, to as int)),
{
    let ghost s = v@.subrange(from as int, to as int);
    let mut a = from;
    assert(s.skip(0) =~= s);
    while a < to && is_whitespace(v[a])
        invariant
            from <= a <= to,
            to <= v@.len(),
            s == v@.subrange(from as int, to as int),
            trim_start(s) == trim_start(v@.subrange(a as int, to as int)),
        decreases to - a,
    {
        assert(v@.subrange(a as int, to as int).skip(1) =~= v@.subrange(a + 1, to as int));
        a = a + 1;
    }
    assert(trim_start(s) == v@.subrange(a as int, to as int));
    let mut b = to;
    while b > a && is_whitespace(v[b - 1])
        invariant
            from <= a <= b <= to,
            to <= v@.len(),
            trim_start(s) == v@.subrange(a as int, to as int),
            spec_trim(s) == trim_end(v@.subrange(a as int, b as int)),
        decreases b - a,
    {
        assert(v@.subrange(a as int, b as int).drop_last() =~= v@.subrange(a as int, b - 1));
        b = b - 1;
    }
    (a, b)
}

/// What `str::to_lowercase` returns for a string: its lowercase equivalent.
pub uninterp spec fn spec_to_lowercase(s: Seq<char>) -> Seq<char>;

/// Whether every character of `s` is ASCII.
pub open spec fn is_ascii_text(s: Seq<char>) -> bool {
    forall|i: int| 0 <= i < s.len() ==> (s[i] as int) < 128
}

/// `c` with a capital ASCII letter replaced by its small letter.
pub open spec fn ascii_lowercase_char(c: char) -> char {
    if 'A' <= c && c <= 'Z' {
        ((c as int) + 32) as char
    } else {
        c
    }
}

/// `str::to_lowercase` returns the lowercase equivalent of the string, a
/// function of the string alone. Of Unicode's lowercase mapping only its ASCII
/// part is stated: on ASCII text, each capital letter becomes its small letter
/// and every other character stays as it is.
pub assume_specification[ str::to_lowercase ](s: &str) -> (res: String)
    ensures
        res@ == spec_to_lowercase(s@),
        is_ascii_text(s@) ==> res@ == s@.map_values(|c: char| ascii_lowercase_char(c)),
;

} // verus!

verus! {

/// Adds to `v` each of `items` that it does not hold yet.
pub fn extend_unique(v: &mut Vec<String>, items: Vec<String>)
    requires
        views(old(v)@).no_duplicates(),
    ensures
        views(final(v)@).no_duplicates(),
        views(final(v)@).to_set() == views(old(v)@).to_set().union(views(items@).to_set()),
{
    let ghost start = views(v@).to_set();
    let mut i: usize = 0;
    while i < items.len()
        invariant
            i <= items.len(),
            views(v@).no_duplicates(),
            views(v@).to_set() == start.union(views(items@.take(i as int)).to_set()),
        decreases items.len() - i,
    {
        let ghost before = views(v@);
        let added = push_unique(v, items[i].clone());
        proof {
            assert(views(items@.take(i + 1)) =~= views(items@.take(i as int)).push(items@[i as int]@));
            views(items@.take(i as int)).lemma_push_to_set_commute(items@[i as int]@);
            if added {
                before.lemma_push_to_set_commute(items@[i as int]@);
            } else {
                assert(before.to_set().contains(items@[i as int]@));
            }
            assert(views(v@).to_set() =~= start.union(views(items@.take(i + 1)).to_set()));
        }
        i = i + 1;
    }
    assert(items@.take(items.len() as int) =~= items@);
}

/// The lines joined, with `sep` between each two.
pub open spec fn joined(lines: Seq<Seq<char>>, sep: Seq<char>) -> Seq<char>
    decreases lines.len(),
{
    if lines.len() == 0 {
        Seq::empty()
    } else if lines.len() == 1 {
        lines[0]
    } else {
        joined(lines.drop_last(), sep) + sep + lines.last()
    }
}

/// The lines joined, with `sep` between each two.
pub fn join(lines: &Vec<String>, sep: &str) -> (res: String)
    ensures
        res@ == joined(views(lines@), sep@),
{
    let mut out = String::new();
    let mut i: usize = 0;
    while i < lines.len()
        invariant
            i <= lines.len(),
            out@ == joined(views(lines@).take(i as int), sep@),
        decreases lines.len() - i,
    {
        assert(views(lines@).take(i + 1).drop_last() =~= views(lines@).take(i as int));
        if i > 0 {
            out.append(sep);
        } else {
            assert(views(lines@).take(1) =~= seq![lines@[0]@]);
        }
        out.append(lines[i].as_str());
        i = i + 1;
    }
    assert(views(lines@).take(lines.len() as int) =~= views(lines@));
    out
}

} // verus!
