//! Subdomains of a domain, as the `subfinder` tool lists them: one per line.

use vstd::prelude::*;
use crate::text::{chars_of, push_unique, spec_to_lowercase, spec_trim, string_of, trim_range, views};

verus! {

/// The segments of `s` between `\n` characters, in order (one more than there
/// are `\n`s). `str::lines` differs only in dropping a final empty segment
/// and a `\r` before each `\n`, which trimming removes anyway.
pub open spec fn segments(s: Seq<char>) -> Seq<Seq<char>>
    decreases s.len(),
{
    if s.len() == 0 {
        seq![Seq::empty()]
    } else {
        let before = segments(s.drop_last());
        if s.last() == '\n' {
            before.push(Seq::empty())
        } else {
            before.update(before.len() - 1, before.last().push(s.last()))
        }
    }
}

/// A line as a subdomain: trimmed and lowercased.
pub open spec fn subdomain_of(line: Seq<char>) -> Seq<char> {
    spec_to_lowercase(spec_trim(line))
}

/// The subdomains that the lines list, in order, blank lines left out.
pub open spec fn subdomains(lines: Seq<Seq<char>>) -> Seq<Seq<char>>
    decreases lines.len(),
{
    if lines.len() == 0 {
        Seq::empty()
    } else {
        subdomains(lines.drop_last()) + if subdomain_of(lines.last()).len() > 0 {
            seq![subdomain_of(lines.last())]
        } else {
            Seq::empty()
        }
    }
}

/// The subdomains that `subfinder`'s output lists.
pub open spec fn spec_parse_subfinder_output(stdout: Seq<char>) -> Set<Seq<char>> {
    subdomains(segments(stdout)).to_set()
}

/// Adds the subdomain of the line `chars[start..end]` to `out`, unless it is
/// blank or already there.
fn add_line(chars: &Vec<char>, start: usize, end: usize, out: &mut Vec<String>, Ghost(done): Ghost<Seq<Seq<char>>>)
    requires
        start <= end <= chars@.len(),
        views(old(out)@).no_duplicates(),
        views(old(out)@).to_set() == subdomains(done).to_set(),
        forall|k: int| 0 <= k < views(old(out)@).len() ==> #[trigger] views(old(out)@)[k].len() > 0,
    ensures
        views(final(out)@).no_duplicates(),
        views(final(out)@).to_set() == subdomains(done.push(chars@.subrange(start as int, end as int))).to_set(),
        forall|k: int| 0 <= k < views(final(out)@).len() ==> #[trigger] views(final(out)@)[k].len() > 0,
{
    let (a, b) = trim_range(chars, start, end);
    let trimmed = string_of(chars, a, b);
    let line = trimmed.as_str().to_lowercase();
    let ghost segment = chars@.subrange(start as int, end as int);
    let ghost next = done.push(segment);
    assert(next.drop_last() =~= done);
    assert(line@ == subdomain_of(segment));
    let ghost before = views(out@);
    if line.unicode_len() > 0 {
        let added = push_unique(out, line);
        proof {
            assert(subdomains(next) =~= subdomains(done).push(subdomain_of(segment)));
            subdomains(done).lemma_push_to_set_commute(subdomain_of(segment));
            if added {
                before.lemma_push_to_set_commute(subdomain_of(segment));
                assert forall|k: int| 0 <= k < views(out@).len() implies #[trigger] views(out@)[k].len() > 0 by {
                    if k < before.len() {
                        assert(views(out@)[k] == before[k]);
                    }
                }
            } else {
                assert(before.to_set().insert(subdomain_of(segment)) =~= before.to_set());
            }
        }
    } else {
        assert(subdomains(next) =~= subdomains(done));
    }
}

/// The subdomains in `subfinder`'s output: each line trimmed and lowercased,
/// blank lines skipped, each subdomain once.
pub fn parse_subfinder_output(stdout: &str) -> (res: Vec<String>)
    ensures
        views(res@).no_duplicates(),
        views(res@).to_set() == spec_parse_subfinder_output(stdout@),
        forall|i: int| 0 <= i < res@.len() ==> #[trigger] res@[i]@.len() > 0,
{
    let chars = chars_of(stdout);
    let mut out: Vec<String> = Vec::new();
    let ghost mut done: Seq<Seq<char>> = Seq::empty();
    let mut start: usize = 0;
    let mut i: usize = 0;
    assert(chars@.take(0) =~= Seq::<char>::empty());
    assert(chars@.subrange(0, 0) =~= Seq::<char>::empty());
    assert(views(out@) =~= Seq::empty());
    assert(subdomains(done).to_set() =~= Set::empty());
    while i < chars.len()
        invariant
            start <= i <= chars@.len(),
            chars@ == stdout@,
            segments(chars@.take(i as int)) == done.push(chars@.subrange(start as int, i as int)),
            views(out@).no_duplicates(),
            views(out@).to_set() == subdomains(done).to_set(),
            forall|k: int| 0 <= k < views(out@).len() ==> #[trigger] views(out@)[k].len() > 0,
        decreases chars@.len() - i,
    {
        assert(chars@.take(i + 1).drop_last() =~= chars@.take(i as int));
        assert(chars@.take(i + 1).last() == chars@[i as int]);
        if chars[i] == '\n' {
            add_line(&chars, start, i, &mut out, Ghost(done));
            proof {
                done = done.push(chars@.subrange(start as int, i as int));
                assert(chars@.subrange((i + 1) as int, (i + 1) as int) =~= Seq::<char>::empty());
            }
            start = i + 1;
        } else {
            proof {
                assert(chars@.subrange(start as int, i + 1) =~= chars@.subrange(start as int, i as int).push(chars@[i as int]));
                assert(done.push(chars@.subrange(start as int, i as int)).update(done.len() as int, chars@.subrange(start as int, i + 1))
                    =~= done.push(chars@.subrange(start as int, i + 1)));
            }
        }
        i = i + 1;
    }
    assert(chars@.take(chars.len() as int) =~= chars@);
    add_line(&chars, start, chars.len(), &mut out, Ghost(done));
    assert forall|k: int| 0 <= k < out@.len() implies #[trigger] out@[k]@.len() > 0 by {
        assert(views(out@)[k] == out@[k]@);
    }
    out
}

} // verus!
