use vstd::prelude::*;
use crate::path::texts;
use crate::protocol::GrepMatch;

verus! {

// Content search reports each matching line of a file with its 1-based
// number and the lines around it. Which lines match is decided by the
// pattern; what is reported about them is decided here.

/// The indices of the set flags, in order.
pub open spec fn flagged(matched: Seq<bool>) -> Seq<int>
    decreases matched.len(),
{
    if matched.len() == 0 {
        seq![]
    } else if matched.last() {
        flagged(matched.drop_last()).push(matched.len() - 1)
    } else {
        flagged(matched.drop_last())
    }
}

/// Up to `n` lines before line `i`.
pub open spec fn lines_before(lines: Seq<Seq<char>>, i: int, n: int) -> Seq<Seq<char>> {
    lines.subrange(if i - n < 0 { 0 } else { i - n }, i)
}

/// Up to `n` lines after line `i`.
pub open spec fn lines_after(lines: Seq<Seq<char>>, i: int, n: int) -> Seq<Seq<char>> {
    lines.subrange(i + 1, if i + 1 + n > lines.len() { lines.len() as int } else { i + 1 + n })
}

/// `m` reports line `i` of `lines` with `n` lines of context on each side.
pub open spec fn reports(m: GrepMatch, lines: Seq<Seq<char>>, i: int, n: int) -> bool {
    &&& m.line_number == i + 1
    &&& m.line_content@ == lines[i]
    &&& texts(m.context_before@) == lines_before(lines, i, n)
    &&& texts(m.context_after@) == lines_after(lines, i, n)
}

/// The number of matches reported: all of them, or at most the limit.
pub open spec fn reported_count(total: int, max_matches: Option<usize>) -> int {
    match max_matches {
        Some(m) => if m < total { m as int } else { total },
        None => total,
    }
}

proof fn lemma_flagged_prefix(matched: Seq<bool>, i: int)
    requires
        0 <= i <= matched.len(),
    ensures
        flagged(matched.take(i)).is_prefix_of(flagged(matched)),
        forall|k: int| 0 <= k < flagged(matched.take(i)).len() ==> #[trigger] flagged(matched.take(i))[k] < i,
    decreases matched.len() - i,
{
    if i == matched.len() {
        assert(matched.take(i) =~= matched);
        lemma_flagged_bounds(matched);
    } else {
        lemma_flagged_prefix(matched, i + 1);
        assert(matched.take(i + 1).drop_last() =~= matched.take(i));
        lemma_flagged_bounds(matched.take(i));
    }
}

proof fn lemma_flagged_bounds(matched: Seq<bool>)
    ensures
        forall|k: int| 0 <= k < flagged(matched).len() ==> 0 <= #[trigger] flagged(matched)[k] < matched.len(),
    decreases matched.len(),
{
    if matched.len() > 0 {
        let prev = flagged(matched.drop_last());
        lemma_flagged_bounds(matched.drop_last());
        assert forall|k: int| 0 <= k < flagged(matched).len() implies 0 <= #[trigger] flagged(
            matched,
        )[k] < matched.len() by {
            if k < prev.len() {
                assert(flagged(matched)[k] == prev[k]);
            }
        }
    }
}

fn copy_range(lines: &Vec<String>, from: usize, to: usize) -> (r: Vec<String>)
    requires
        from <= to <= lines.len(),
    ensures
        texts(r@) == texts(lines@).subrange(from as int, to as int),
{
    let mut out: Vec<String> = Vec::new();
    let mut j: usize = from;
    while j < to
        invariant
            from <= j <= to <= lines.len(),
            texts(out@) == texts(lines@).subrange(from as int, j as int),
        decreases to - j,
    {
        let ghost before = out@;
        out.push(lines[j].clone());
        assert(texts(out@) =~= texts(before).push(lines@[j as int]@));
        assert(texts(lines@).subrange(from as int, j + 1) =~= texts(lines@).subrange(from as int, j as int).push(lines@[j as int]@));
        j = j + 1;
    }
    out
}

/// The report for line `i` with `context` lines on each side.
fn report_line(lines: &Vec<String>, i: usize, context: usize) -> (r: GrepMatch)
    requires
        i < lines.len(),
    ensures
        reports(r, texts(lines@), i as int, context as int),
{
    let from = if i < context { 0 } else { i - context };
    let to = if context > lines.len() - (i + 1) { lines.len() } else { i + 1 + context };
    GrepMatch {
        line_number: i + 1,
        line_content: lines[i].clone(),
        context_before: copy_range(lines, from, i),
        context_after: copy_range(lines, i + 1, to),
    }
}

/// Reports the matching lines, in order: `matched` flags, line by line,
/// the lines that the pattern matched. Each report carries the line's
/// 1-based number, its text and up to `context` lines before and after it;
/// with `max_matches`, only that many matches are reported.
pub fn grep_lines(
    lines: &Vec<String>,
    matched: &Vec<bool>,
    max_matches: Option<usize>,
    context: usize,
) -> (r: Vec<GrepMatch>)
    requires
        lines.len() == matched.len(),
    ensures
        r.len() == reported_count(flagged(matched@).len() as int, max_matches),
        forall|k: int|
            0 <= k < r.len() ==> reports(
                #[trigger] r@[k],
                texts(lines@),
                flagged(matched@)[k],
                context as int,
            ),
{
    let mut out: Vec<GrepMatch> = Vec::new();
    let mut i: usize = 0;
    let cap = match max_matches {
        Some(m) => m,
        None => lines.len(),
    };
    while i < lines.len() && out.len() < cap
        invariant
            lines.len() == matched.len(),
            i <= lines.len(),
            out.len() == flagged(matched@.take(i as int)).len(),
            out.len() <= cap,
            max_matches is None ==> cap == lines.len(),
            max_matches matches Some(m) ==> cap == m,
            forall|k: int|
                0 <= k < out.len() ==> reports(
                    #[trigger] out@[k],
                    texts(lines@),
                    flagged(matched@.take(i as int))[k],
                    context as int,
                ),
        decreases lines.len() - i,
    {
        assert(matched@.take(i + 1).drop_last() =~= matched@.take(i as int));
        if matched[i] {
            let m = report_line(lines, i, context);
            out.push(m);
        }
        i = i + 1;
    }
    proof {
        lemma_flagged_prefix(matched@, i as int);
        lemma_flagged_bounds(matched@.take(i as int));
        if i == lines.len() {
            assert(matched@.take(i as int) =~= matched@);
        }
        if max_matches is None {
            assert(flagged(matched@.take(i as int)).len() <= i) by {
                lemma_flagged_bounds_len(matched@.take(i as int));
            }
        }
    }
    out
}

proof fn lemma_flagged_bounds_len(matched: Seq<bool>)
    ensures
        flagged(matched).len() <= matched.len(),
    decreases matched.len(),
{
    if matched.len() > 0 {
        lemma_flagged_bounds_len(matched.drop_last());
    }
}

/// Shell-style matching of a whole name: `*` matches any run of
/// characters, `?` any one character, and every other character itself.
pub open spec fn glob_match(pattern: Seq<char>, name: Seq<char>) -> bool
    decreases pattern.len() + name.len(),
{
    if pattern.len() == 0 {
        name.len() == 0
    } else if pattern[0] == '*' {
        glob_match(pattern.skip(1), name) || (name.len() > 0 && glob_match(pattern, name.skip(1)))
    } else {
        name.len() > 0 && (pattern[0] == '?' || pattern[0] == name[0]) && glob_match(
            pattern.skip(1),
            name.skip(1),
        )
    }
}

/// Whether `name` matches the shell-style `pattern` as a whole.
pub fn glob_matches(pattern: &str, name: &str) -> (r: bool)
    ensures
        r == glob_match(pattern@, name@),
{
    let np = pattern.unicode_len();
    let ns = name.unicode_len();
    // For the pattern from `i`: `next[j]` tells whether it matches the name
    // from `j < ns`, and `next_end` whether it matches the empty rest.
    let mut next: Vec<bool> = Vec::new();
    let mut j: usize = 0;
    assert(pattern@.skip(np as int).len() == 0);
    while j < ns
        invariant
            ns == name@.len(),
            np == pattern@.len(),
            j <= ns,
            next.len() == j,
            forall|k: int| 0 <= k < j ==> #[trigger] next@[k] == glob_match(pattern@.skip(np as int), name@.skip(k)),
        decreases ns - j,
    {
        assert(pattern@.skip(np as int).len() == 0);
        next.push(false);
        j = j + 1;
    }
    let mut next_end = true;
    assert(name@.skip(ns as int).len() == 0);
    let mut i: usize = np;
    while i > 0
        invariant
            ns == name@.len(),
            np == pattern@.len(),
            i <= np,
            next.len() == ns,
            forall|k: int| 0 <= k < ns ==> #[trigger] next@[k] == glob_match(pattern@.skip(i as int), name@.skip(k)),
            next_end == glob_match(pattern@.skip(i as int), name@.skip(ns as int)),
        decreases i,
    {
        let c = pattern.get_char(i - 1);
        let ghost p = pattern@.skip(i - 1);
        assert(p.skip(1) =~= pattern@.skip(i as int));
        assert(p[0] == c);
        assert(name@.skip(ns as int).len() == 0);
        let cur_end = c == '*' && next_end;
        let mut cur: Vec<bool> = Vec::new();
        let mut fill: usize = 0;
        while fill < ns
            invariant
                cur.len() == fill,
                fill <= ns,
            decreases ns - fill,
        {
            cur.push(false);
            fill = fill + 1;
        }
        let mut j: usize = ns;
        while j > 0
            invariant
                ns == name@.len(),
                np == pattern@.len(),
                1 <= i <= np,
                p == pattern@.skip(i - 1),
                p.skip(1) == pattern@.skip(i as int),
                p[0] == c,
                next.len() == ns,
                cur.len() == ns,
                j <= ns,
                forall|k: int| 0 <= k < ns ==> #[trigger] next@[k] == glob_match(pattern@.skip(i as int), name@.skip(k)),
                next_end == glob_match(pattern@.skip(i as int), name@.skip(ns as int)),
                cur_end == glob_match(p, name@.skip(ns as int)),
                forall|k: int| j <= k < ns ==> #[trigger] cur@[k] == glob_match(p, name@.skip(k)),
            decreases j,
        {
            let k = j - 1;
            let ghost s = name@.skip(k as int);
            assert(s.skip(1) =~= name@.skip(k + 1));
            assert(s[0] == name@[k as int]);
            let after_next = if k + 1 < ns { next[k + 1] } else { next_end };
            let after_cur = if k + 1 < ns { cur[k + 1] } else { cur_end };
            let val = if c == '*' {
                next[k] || after_cur
            } else {
                (c == '?' || c == name.get_char(k)) && after_next
            };
            cur.set(k, val);
            j = k;
        }
        next = cur;
        next_end = cur_end;
        i = i - 1;
    }
    assert(pattern@.skip(0) =~= pattern@);
    assert(name@.skip(0) =~= name@);
    if ns == 0 {
        next_end
    } else {
        next[0]
    }
}

} // verus!
