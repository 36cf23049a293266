use vstd::prelude::*;

verus! {

// A path is text in which `/` separates components. Empty pieces and `.`
// pieces name no directory step and are dropped; `..` is kept as it stands.
// A path that begins with `/` is absolute.

/// The text of each string in a sequence.
pub open spec fn texts(v: Seq<String>) -> Seq<Seq<char>> {
    v.map_values(|s: String| s@)
}

/// A piece between separators that names a directory step.
pub open spec fn is_component(piece: Seq<char>) -> bool {
    piece.len() > 0 && piece != seq!['.']
}

/// `done` with `piece` appended when it names a directory step.
pub open spec fn keep_piece(done: Seq<Seq<char>>, piece: Seq<char>) -> Seq<Seq<char>> {
    if is_component(piece) {
        done.push(piece)
    } else {
        done
    }
}

/// Reading `s` from the left: the components completed so far, and the
/// piece after the last separator.
pub open spec fn scan(s: Seq<char>) -> (Seq<Seq<char>>, Seq<char>)
    decreases s.len(),
{
    if s.len() == 0 {
        (seq![], seq![])
    } else {
        let (done, piece) = scan(s.drop_last());
        if s.last() == '/' {
            (keep_piece(done, piece), seq![])
        } else {
            (done, piece.push(s.last()))
        }
    }
}

/// The components of a path, in order.
pub open spec fn components(s: Seq<char>) -> Seq<Seq<char>> {
    keep_piece(scan(s).0, scan(s).1)
}

pub open spec fn is_absolute(s: Seq<char>) -> bool {
    s.len() > 0 && s[0] == '/'
}

/// `p` is `base` itself or lies below it, compared component by component.
pub open spec fn is_under(p: Seq<char>, base: Seq<char>) -> bool {
    &&& is_absolute(p) == is_absolute(base)
    &&& components(base).is_prefix_of(components(p))
}

/// Two texts that name the same path.
pub open spec fn same_path(a: Seq<char>, b: Seq<char>) -> bool {
    is_absolute(a) == is_absolute(b) && components(a) == components(b)
}

/// `a` is `p` itself or the path made of a strict prefix of the
/// components of `p`.
pub open spec fn is_ancestor_or_self(a: Seq<char>, p: Seq<char>) -> bool {
    a == p || exists|k: int|
        0 <= k < components(p).len() && a == #[trigger] join(is_absolute(p), components(p).take(k))
}

/// The path one step up: `None` when the path has no component.
pub open spec fn parent(p: Seq<char>) -> Option<Seq<char>> {
    if components(p).len() == 0 {
        None
    } else {
        Some(join(is_absolute(p), components(p).drop_last()))
    }
}

/// The last component, unless the path has none or ends in `..`.
pub open spec fn file_name(p: Seq<char>) -> Option<Seq<char>> {
    let cs = components(p);
    if cs.len() == 0 || cs.last() == seq!['.', '.'] {
        None
    } else {
        Some(cs.last())
    }
}

/// Index of the last `.` in `n`, or -1 when there is none.
pub open spec fn last_dot(n: Seq<char>) -> int
    decreases n.len(),
{
    if n.len() == 0 {
        -1
    } else if n.last() == '.' {
        n.len() - 1
    } else {
        last_dot(n.drop_last())
    }
}

/// What follows the last `.` of a file name; a name with no `.` past its
/// first character has no extension.
pub open spec fn name_extension(n: Seq<char>) -> Option<Seq<char>> {
    let i = last_dot(n);
    if i <= 0 {
        None
    } else {
        Some(n.subrange(i + 1, n.len() as int))
    }
}

pub open spec fn extension(p: Seq<char>) -> Option<Seq<char>> {
    match file_name(p) {
        Some(n) => name_extension(n),
        None => None,
    }
}

/// A path whose file name begins with `.`.
pub open spec fn is_hidden(p: Seq<char>) -> bool {
    match file_name(p) {
        Some(n) => n[0] == '.',
        None => false,
    }
}

/// The text of the path made of the components `cs`.
pub open spec fn join(absolute: bool, cs: Seq<Seq<char>>) -> Seq<char>
    decreases cs.len(),
{
    if cs.len() == 0 {
        if absolute {
            seq!['/']
        } else {
            seq![]
        }
    } else if cs.len() == 1 && !absolute {
        cs[0]
    } else {
        join(absolute, cs.drop_last()) + (if cs.len() == 1 { seq![] } else { seq!['/'] }) + cs.last()
    }
}

proof fn lemma_scan_steps(s: Seq<char>)
    ensures
        forall|i: int| 0 <= i < scan(s).0.len() ==> is_component(#[trigger] scan(s).0[i]),
    decreases s.len(),
{
    if s.len() > 0 {
        lemma_scan_steps(s.drop_last());
        let done = scan(s.drop_last()).0;
        let piece = scan(s.drop_last()).1;
        if s.last() == '/' && is_component(piece) {
            assert forall|i: int| 0 <= i < scan(s).0.len() implies is_component(
                #[trigger] scan(s).0[i],
            ) by {
                assert(scan(s).0 == done.push(piece));
                if i < done.len() {
                    assert(scan(s).0[i] == done[i]);
                }
            }
        }
    }
}

/// Every component of a path is a non-empty piece other than `.`.
pub proof fn lemma_components_nonempty(s: Seq<char>)
    ensures
        forall|i: int| 0 <= i < components(s).len() ==> is_component(#[trigger] components(s)[i]),
{
    lemma_scan_steps(s);
    let done = scan(s).0;
    assert forall|i: int| 0 <= i < components(s).len() implies is_component(
        #[trigger] components(s)[i],
    ) by {
        if i < done.len() {
            assert(components(s)[i] == done[i]);
        }
    }
}

pub fn is_absolute_path(p: &str) -> (r: bool)
    ensures
        r == is_absolute(p@),
{
    p.unicode_len() > 0 && p.get_char(0) == '/'
}

fn is_component_text(piece: &str) -> (r: bool)
    ensures
        r == is_component(piece@),
{
    let n = piece.unicode_len();
    if n == 0 {
        false
    } else if n == 1 && piece.get_char(0) == '.' {
        assert(piece@ =~= seq!['.']);
        false
    } else {
        assert(n == 1 ==> piece@ != seq!['.']);
        true
    }
}

/// The components of `p`, in order.
pub fn components_of(p: &str) -> (r: Vec<String>)
    ensures
        texts(r@) == components(p@),
{
    let n = p.unicode_len();
    let mut done: Vec<String> = Vec::new();
    let mut start: usize = 0;
    let mut i: usize = 0;
    while i < n
        invariant
            n == p@.len(),
            start <= i <= n,
            texts(done@) == scan(p@.take(i as int)).0,
            p@.subrange(start as int, i as int) == scan(p@.take(i as int)).1,
        decreases n - i,
    {
        let c = p.get_char(i);
        assert(p@.take(i + 1).drop_last() =~= p@.take(i as int));
        if c == '/' {
            let piece = p.substring_char(start, i);
            if is_component_text(piece) {
                let ghost before = done@;
                done.push(String::from_str(piece));
                assert(texts(done@) =~= texts(before).push(piece@));
            }
            start = i + 1;
            assert(p@.subrange(start as int, i + 1) =~= Seq::<char>::empty());
        } else {
            assert(p@.subrange(start as int, i + 1) =~= p@.subrange(start as int, i as int).push(c));
        }
        i = i + 1;
    }
    assert(p@.take(n as int) =~= p@);
    let piece = p.substring_char(start, n);
    if is_component_text(piece) {
        let ghost before = done@;
        done.push(String::from_str(piece));
        assert(texts(done@) =~= texts(before).push(piece@));
    }
    done
}

/// Whether `p` is `base` itself or lies below it.
pub fn is_under_path(p: &str, base: &str) -> (r: bool)
    ensures
        r == is_under(p@, base@),
{
    if is_absolute_path(p) != is_absolute_path(base) {
        return false;
    }
    let cp = components_of(p);
    let cb = components_of(base);
    if cb.len() > cp.len() {
        return false;
    }
    let mut j: usize = 0;
    while j < cb.len()
        invariant
            texts(cp@) == components(p@),
            texts(cb@) == components(base@),
            cb.len() <= cp.len(),
            j <= cb.len(),
            forall|k: int| 0 <= k < j ==> components(base@)[k] == components(p@)[k],
        decreases cb.len() - j,
    {
        if cp[j] != cb[j] {
            assert(texts(cb@)[j as int] != texts(cp@)[j as int]);
            return false;
        }
        j = j + 1;
    }
    true
}

/// Whether two texts name the same path.
pub fn is_same_path(a: &str, b: &str) -> (r: bool)
    ensures
        r == same_path(a@, b@),
{
    if is_absolute_path(a) != is_absolute_path(b) {
        return false;
    }
    let ca = components_of(a);
    let cb = components_of(b);
    assert(texts(ca@).len() == ca@.len() && texts(cb@).len() == cb@.len());
    if ca.len() != cb.len() {
        return false;
    }
    let mut j: usize = 0;
    while j < ca.len()
        invariant
            texts(ca@) == components(a@),
            texts(cb@) == components(b@),
            ca.len() == cb.len(),
            j <= ca.len(),
            forall|k: int| 0 <= k < j ==> components(a@)[k] == components(b@)[k],
        decreases ca.len() - j,
    {
        if ca[j] != cb[j] {
            assert(texts(ca@)[j as int] != texts(cb@)[j as int]);
            return false;
        }
        j = j + 1;
    }
    assert(components(a@) =~= components(b@));
    true
}

/// The last component of `p`, unless it has none or ends in `..`.
pub fn file_name_of(p: &str) -> (r: Option<String>)
    ensures
        r matches Some(n) ==> file_name(p@) == Some(n@),
        r is None ==> file_name(p@) is None,
{
    let mut cs = components_of(p);
    let len = cs.len();
    if len == 0 {
        return None;
    }
    assert(texts(cs@)[len - 1] == components(p@).last());
    let last = cs.remove(len - 1);
    if last.as_str().unicode_len() == 2 && last.as_str().get_char(0) == '.'
        && last.as_str().get_char(1) == '.' {
        assert(last@ =~= seq!['.', '.']);
        None
    } else {
        assert(last@ != seq!['.', '.']);
        Some(last)
    }
}

/// What follows the last `.` of the file name `n`, when there is one past
/// its first character.
pub fn name_extension_of(n: &str) -> (r: Option<String>)
    ensures
        r matches Some(e) ==> name_extension(n@) == Some(e@),
        r is None ==> name_extension(n@) is None,
{
    let len = n.unicode_len();
    let mut i: usize = len;
    assert(n@.take(len as int) =~= n@);
    while i > 0 && n.get_char(i - 1) != '.'
        invariant
            len == n@.len(),
            i <= len,
            forall|k: int| i <= k < len ==> n@[k] != '.',
            last_dot(n@) == last_dot(n@.take(i as int)),
        decreases i,
    {
        assert(n@.take(i as int).drop_last() =~= n@.take(i - 1));
        i = i - 1;
    }
    if i == 0 {
        assert(n@.take(0) =~= Seq::<char>::empty());
    } else {
        assert(n@.take(i as int).last() == n@[i - 1]);
    }
    if i <= 1 {
        None
    } else {
        Some(String::from_str(n.substring_char(i, len)))
    }
}

/// The extension of the file name of `p`.
pub fn extension_of(p: &str) -> (r: Option<String>)
    ensures
        r matches Some(e) ==> extension(p@) == Some(e@),
        r is None ==> extension(p@) is None,
{
    match file_name_of(p) {
        Some(n) => name_extension_of(n.as_str()),
        None => None,
    }
}

/// Whether the file name of `p` begins with `.`.
pub fn is_hidden_path(p: &str) -> (r: bool)
    ensures
        r == is_hidden(p@),
{
    match file_name_of(p) {
        Some(n) => {
            proof {
                lemma_components_nonempty(p@);
            }
            n.as_str().get_char(0) == '.'
        },
        None => false,
    }
}

/// The text of the path made of the first `k` of the components `cs`.
pub fn join_components(absolute: bool, cs: &Vec<String>, k: usize) -> (r: String)
    requires
        k <= cs.len(),
    ensures
        r@ == join(absolute, texts(cs@).take(k as int)),
{
    proof {
        reveal_strlit("/");
        reveal_strlit("");
    }
    let mut out = if absolute { String::from_str("/") } else { String::from_str("") };
    let mut j: usize = 0;
    assert(texts(cs@).take(0) =~= Seq::<Seq<char>>::empty());
    while j < k
        invariant
            k <= cs.len(),
            j <= k,
            out@ == join(absolute, texts(cs@).take(j as int)),
        decreases k - j,
    {
        let ghost prev = texts(cs@).take(j as int);
        let ghost next = texts(cs@).take(j + 1);
        assert(next.drop_last() =~= prev);
        assert(next.last() == cs@[j as int]@);
        let ghost before = out@;
        if j > 0 {
            proof {
                reveal_strlit("/");
            }
            out.append("/");
            assert(out@ =~= before + seq!['/']);
        }
        let ghost mid = out@;
        out.append(cs[j].as_str());
        assert(out@ == mid + next.last());
        if j > 0 {
            assert(join(absolute, next) == join(absolute, prev) + seq!['/'] + next.last());
            assert(out@ =~= join(absolute, next));
        } else if absolute {
            assert(join(absolute, next) == join(absolute, prev) + Seq::<char>::empty() + next.last());
            assert(out@ =~= join(absolute, next));
        } else {
            assert(out@ =~= join(absolute, next));
        }
        j = j + 1;
    }
    out
}

/// The path one step up from `p`, if `p` has a component.
pub fn parent_of(p: &str) -> (r: Option<String>)
    ensures
        r matches Some(q) ==> parent(p@) == Some(q@),
        r is None ==> parent(p@) is None,
{
    let cs = components_of(p);
    assert(texts(cs@).len() == cs@.len());
    if cs.len() == 0 {
        return None;
    }
    let q = join_components(is_absolute_path(p), &cs, cs.len() - 1);
    assert(texts(cs@).take(cs.len() - 1) =~= components(p@).drop_last());
    Some(q)
}

} // verus!
