use vstd::prelude::*;
use crate::access_control::{resolved_roots, AccessPolicy};
use crate::error::Result;
use crate::path::{file_name, file_name_of, texts};
use crate::search::{glob_match, glob_matches};
use crate::probe::is_resolved;

verus! {

// A directory listing or search shows only the entries that the policy
// lets the caller read: each entry is validated on its own, and one that
// fails is left out rather than failing the whole listing.

/// The entries whose flag in `keep` is set, in their order.
pub open spec fn kept(entries: Seq<Seq<char>>, keep: Seq<bool>) -> Seq<Seq<char>>
    decreases entries.len(),
{
    if entries.len() == 0 || keep.len() == 0 {
        seq![]
    } else {
        let rest = kept(entries.drop_last(), keep.drop_last());
        if keep.last() {
            rest.push(entries.last())
        } else {
            rest
        }
    }
}

/// The entries whose flag in `keep` is set, in their order.
pub fn keep_flagged(entries: &Vec<String>, keep: &Vec<bool>) -> (r: Vec<String>)
    requires
        entries.len() == keep.len(),
    ensures
        texts(r@) == kept(texts(entries@), keep@),
{
    let mut out: Vec<String> = Vec::new();
    let mut i: usize = 0;
    while i < entries.len()
        invariant
            entries.len() == keep.len(),
            i <= entries.len(),
            texts(out@) == kept(texts(entries@).take(i as int), keep@.take(i as int)),
        decreases entries.len() - i,
    {
        assert(texts(entries@).take(i + 1).drop_last() =~= texts(entries@).take(i as int));
        assert(keep@.take(i + 1).drop_last() =~= keep@.take(i as int));
        if keep[i] {
            let ghost before = out@;
            out.push(entries[i].clone());
            assert(texts(out@) =~= texts(before).push(entries@[i as int]@));
        }
        i = i + 1;
    }
    assert(texts(entries@).take(entries.len() as int) =~= texts(entries@));
    assert(keep@.take(entries.len() as int) =~= keep@);
    out
}

/// Whether each validation succeeded.
pub open spec fn succeeded(outcomes: Seq<Result<String>>) -> Seq<bool> {
    outcomes.map_values(|o: Result<String>| o is Ok)
}

/// A listing keeps exactly the flagged entries: every flagged entry is in
/// the result, and every item of the result is a flagged entry.
pub proof fn lemma_kept_exactly(entries: Seq<Seq<char>>, keep: Seq<bool>)
    requires
        entries.len() == keep.len(),
    ensures
        forall|j: int| 0 <= j < entries.len() && #[trigger] keep[j] ==> kept(entries, keep).contains(entries[j]),
        forall|x: Seq<char>| #[trigger] kept(entries, keep).contains(x) ==> exists|j: int|
            0 <= j < entries.len() && keep[j] && entries[j] == x,
    decreases entries.len(),
{
    if entries.len() > 0 {
        let n = entries.len() - 1;
        let e0 = entries.drop_last();
        let k0 = keep.drop_last();
        let rest = kept(e0, k0);
        lemma_kept_exactly(e0, k0);
        assert(kept(entries, keep) == if keep.last() { rest.push(entries.last()) } else { rest });
        assert forall|j: int| 0 <= j < entries.len() && #[trigger] keep[j] implies kept(
            entries,
            keep,
        ).contains(entries[j]) by {
            if j < n {
                assert(k0[j] == keep[j] && e0[j] == entries[j]);
                assert(rest.contains(e0[j]));
                let t = choose|t: int| 0 <= t < rest.len() && rest[t] == e0[j];
                if keep.last() {
                    assert(rest.push(entries.last())[t] == rest[t]);
                }
            } else {
                assert(kept(entries, keep) == rest.push(entries.last()));
                assert(rest.push(entries.last())[rest.len() as int] == entries[j]);
            }
        }
        assert forall|x: Seq<char>| #[trigger] kept(entries, keep).contains(x) implies exists|j: int|
            0 <= j < entries.len() && keep[j] && entries[j] == x by {
            let t = choose|t: int| 0 <= t < kept(entries, keep).len() && kept(entries, keep)[t] == x;
            if t < rest.len() {
                if keep.last() {
                    assert(rest.push(entries.last())[t] == rest[t]);
                }
                assert(rest.contains(x));
                let j = choose|j: int| 0 <= j < e0.len() && k0[j] && e0[j] == x;
                assert(keep[j] && entries[j] == x);
            } else {
                assert(keep[n] && entries[n] == x);
            }
        }
    }
}

impl AccessPolicy {
    /// The entries of a listing that the policy lets the caller read, in
    /// their order. Each entry is validated for reading on its own; an entry
    /// whose validation succeeds is kept, and one whose validation fails is
    /// left out.
    pub fn visible_entries(&self, entries: &Vec<String>) -> (r: Vec<String>)
        ensures
            exists|outcomes: Seq<Result<String>>|
                #![trigger kept(texts(entries@), succeeded(outcomes))]
                outcomes.len() == entries.len() && texts(r@) == kept(
                    texts(entries@),
                    succeeded(outcomes),
                ) && forall|j: int|
                    0 <= j < outcomes.len() ==> self.read_validation(
                        entries@[j]@,
                        #[trigger] outcomes[j],
                    ),
    {
        let mut keep: Vec<bool> = Vec::new();
        let ghost mut outcomes: Seq<Result<String>> = seq![];
        let mut i: usize = 0;
        while i < entries.len()
            invariant
                i <= entries.len(),
                keep.len() == i,
                outcomes.len() == i,
                keep@ == succeeded(outcomes),
                forall|j: int|
                    0 <= j < i ==> self.read_validation(entries@[j]@, #[trigger] outcomes[j]),
            decreases entries.len() - i,
        {
            let res = self.validate_read(entries[i].as_str());
            let ok = res.is_ok();
            keep.push(ok);
            proof {
                outcomes = outcomes.push(res);
                assert(keep@ =~= succeeded(outcomes));
            }
            i = i + 1;
        }
        keep_flagged(entries, &keep)
    }
}

/// The first `n` items, or all of them when there are fewer.
pub open spec fn at_most(v: Seq<Seq<char>>, n: Option<usize>) -> Seq<Seq<char>> {
    match n {
        Some(m) => if m < v.len() { v.take(m as int) } else { v },
        None => v,
    }
}

/// The file name of `p` matches `pattern`.
pub open spec fn name_matches(p: Seq<char>, pattern: Seq<char>) -> bool {
    file_name(p) matches Some(n) && glob_match(pattern, n)
}

/// Whether the file name of `p` matches `pattern`.
fn file_name_matches(p: &str, pattern: &str) -> (r: bool)
    ensures
        r == name_matches(p@, pattern@),
{
    match file_name_of(p) {
        Some(n) => glob_matches(pattern, n.as_str()),
        None => false,
    }
}

impl AccessPolicy {
    /// The entries of a walk whose file name matches the shell-style
    /// `pattern` and that the policy lets the caller read, in their order,
    /// at most `max_results` of them. Each entry is validated on its own;
    /// the ones that fail are left out.
    pub fn search_entries(
        &self,
        entries: &Vec<String>,
        pattern: &str,
        max_results: Option<usize>,
    ) -> (r: Vec<String>)
        ensures
            exists|keep: Seq<bool>|
                #![trigger kept(texts(entries@), keep)]
                keep.len() == entries.len() && texts(r@) == at_most(
                    kept(texts(entries@), keep),
                    max_results,
                ) && forall|j: int|
                    0 <= j < keep.len() && #[trigger] keep[j] ==> name_matches(entries@[j]@, pattern@)
                        && exists|
                        c: Seq<char>,
                        d: Seq<Option<Seq<char>>>,
                        a: Seq<Option<Seq<char>>>,
                        link: bool,
                    |
                        #![trigger self.read_permitted(entries@[j]@, c, d, a, link)]
                        is_resolved(c) && resolved_roots(d, self.denied_paths.len() as nat)
                            && resolved_roots(a, self.allowed_paths.len() as nat)
                            && self.read_permitted(entries@[j]@, c, d, a, link),
    {
        let mut keep: Vec<bool> = Vec::new();
        let mut i: usize = 0;
        while i < entries.len()
            invariant
                i <= entries.len(),
                keep.len() == i,
                forall|j: int|
                    0 <= j < i && #[trigger] keep@[j] ==> name_matches(entries@[j]@, pattern@)
                        && exists|
                            c: Seq<char>,
                            d: Seq<Option<Seq<char>>>,
                            a: Seq<Option<Seq<char>>>,
                            link: bool,
                        |
                            #![trigger self.read_permitted(entries@[j]@, c, d, a, link)]
                            is_resolved(c) && resolved_roots(d, self.denied_paths.len() as nat)
                                && resolved_roots(a, self.allowed_paths.len() as nat)
                                && self.read_permitted(entries@[j]@, c, d, a, link),
            decreases entries.len() - i,
        {
            let ok = file_name_matches(entries[i].as_str(), pattern)
                && self.validate_read(entries[i].as_str()).is_ok();
            keep.push(ok);
            i = i + 1;
        }
        let mut found = keep_flagged(entries, &keep);
        if let Some(m) = max_results {
            if m < found.len() {
                let ghost before = found@;
                found.truncate(m);
                assert(texts(found@) =~= texts(before).take(m as int));
            }
        }
        found
    }
}

} // verus!
