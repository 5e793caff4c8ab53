use vstd::prelude::*;

verus! {

/// The character sequences held by a sequence of strings.
pub open spec fn views(v: Seq<String>) -> Seq<Seq<char>> {
    v.map_values(|x: String| x@)
}

/// The characters of an optional string.
pub open spec fn opt_view(o: Option<String>) -> Option<Seq<char>> {
    match o {
        Some(s) => Some(s@),
        None => None,
    }
}

/// The segments of `s` between occurrences of `sep`, as `str::split` yields
/// them: always at least one, possibly empty.
pub open spec fn split(s: Seq<char>, sep: char) -> Seq<Seq<char>>
    decreases s.len(),
{
    if s.len() == 0 {
        seq![Seq::<char>::empty()]
    } else {
        let head = split(s.drop_last(), sep);
        if s.last() == sep {
            head.push(Seq::<char>::empty())
        } else {
            head.update(head.len() - 1, head.last().push(s.last()))
        }
    }
}

pub proof fn lemma_split_nonempty(s: Seq<char>, sep: char)
    ensures
        split(s, sep).len() >= 1,
    decreases s.len(),
{
    if s.len() > 0 {
        lemma_split_nonempty(s.drop_last(), sep);
    }
}

/// `s` with every non-overlapping occurrence of `pat`, scanned from the
/// left, removed.
pub open spec fn remove_all(s: Seq<char>, pat: Seq<char>) -> Seq<char>
    decreases s.len(),
{
    if pat.len() == 0 || s.len() < pat.len() {
        s
    } else if s.take(pat.len() as int) == pat {
        remove_all(s.skip(pat.len() as int), pat)
    } else {
        seq![s[0]] + remove_all(s.skip(1), pat)
    }
}

/// Splits `s` at every `sep`.
pub fn split_on(s: &str, sep: char) -> (r: Vec<String>)
    ensures
        views(r@) == split(s@, sep),
{
    let n = s.unicode_len();
    let mut parts: Vec<String> = Vec::new();
    let mut start: usize = 0;
    let mut i: usize = 0;
    assert(s@.take(0) =~= Seq::<char>::empty());
    assert(views(parts@).push(s@.subrange(0, 0)) =~= seq![Seq::<char>::empty()]);
    while i < n
        invariant
            n == s@.len(),
            start <= i <= n,
            views(parts@).push(s@.subrange(start as int, i as int)) == split(s@.take(i as int), sep),
        decreases n - i,
    {
        let c = s.get_char(i);
        let ghost pre = s@.take(i as int);
        let ghost cur = s@.take(i as int + 1);
        assert(cur.drop_last() =~= pre);
        assert(cur.last() == c);
        proof {
            lemma_split_nonempty(pre, sep);
        }
        if c == sep {
            let part = String::from_str(s.substring_char(start, i));
            let ghost old_parts = parts@;
            parts.push(part);
            assert(views(parts@) =~= views(old_parts).push(s@.subrange(start as int, i as int)));
            start = i + 1;
            assert(s@.subrange(start as int, i as int + 1) =~= Seq::<char>::empty());
            assert(views(parts@).push(s@.subrange(start as int, i as int + 1)) =~= split(cur, sep));
        } else {
            let ghost head = views(parts@).push(s@.subrange(start as int, i as int));
            assert(s@.subrange(start as int, i as int + 1) =~= s@.subrange(start as int, i as int).push(c));
            assert(views(parts@).push(s@.subrange(start as int, i as int + 1)) =~= head.update(
                head.len() - 1,
                head.last().push(c),
            ));
        }
        i = i + 1;
    }
    let ghost old_parts = parts@;
    parts.push(String::from_str(s.substring_char(start, n)));
    assert(s@.take(n as int) =~= s@);
    assert(views(parts@) =~= views(old_parts).push(s@.subrange(start as int, n as int)));
    parts
}

/// `base` followed by `tail`.
pub fn joined(base: &String, tail: &str) -> (r: String)
    ensures
        r@ == base@ + tail@,
{
    let mut out = base.clone();
    out.append(tail);
    out
}

/// Whether `s` holds `pat` starting at position `i`.
pub fn matches_at(s: &str, i: usize, pat: &str) -> (r: bool)
    requires
        i + pat@.len() <= s@.len() <= usize::MAX,
    ensures
        r == (s@.subrange(i as int, i + pat@.len()) == pat@),
{
    let p = pat.unicode_len();
    let mut k: usize = 0;
    while k < p
        invariant
            p == pat@.len(),
            i + p <= s@.len() <= usize::MAX,
            k <= p,
            forall|j: int| 0 <= j < k ==> s@[i + j] == pat@[j],
        decreases p - k,
    {
        if s.get_char(i + k) != pat.get_char(k) {
            assert(s@.subrange(i as int, i + p)[k as int] != pat@[k as int]);
            return false;
        }
        k = k + 1;
    }
    assert(s@.subrange(i as int, i + p) =~= pat@);
    true
}

/// `s` with every occurrence of `pat` removed, as `str::replace(pat, "")`
/// does it.
pub fn remove_all_of(s: &str, pat: &str) -> (r: String)
    ensures
        r@ == remove_all(s@, pat@),
{
    let n = s.unicode_len();
    let p = pat.unicode_len();
    if p == 0 {
        return String::from_str(s);
    }
    let mut out = String::new();
    let mut start: usize = 0;
    let mut i: usize = 0;
    assert(s@.skip(0) =~= s@);
    assert(out@ + s@.subrange(0, 0) =~= Seq::<char>::empty());
    while i < n
        invariant
            n == s@.len(),
            p == pat@.len(),
            p > 0,
            start <= i <= n,
            remove_all(s@, pat@) == out@ + s@.subrange(start as int, i as int) + remove_all(
                s@.skip(i as int),
                pat@,
            ),
        decreases n - i,
    {
        let ghost t = s@.skip(i as int);
        if p <= n - i && matches_at(s, i, pat) {
            assert(t.take(p as int) =~= s@.subrange(i as int, i + p));
            assert(t.skip(p as int) =~= s@.skip(i + p));
            out.append(s.substring_char(start, i));
            i = i + p;
            start = i;
            assert(s@.subrange(start as int, i as int) =~= Seq::<char>::empty());
            assert(out@ + s@.subrange(start as int, i as int) =~= out@);
        } else {
            assert(t.skip(1) =~= s@.skip(i + 1));
            proof {
                if t.len() < p {
                    assert(t =~= seq![t[0]] + t.skip(1));
                } else {
                    assert(t.take(p as int) =~= s@.subrange(i as int, i + p));
                }
            }
            assert(remove_all(t, pat@) == seq![s@[i as int]] + remove_all(s@.skip(i + 1), pat@));
            assert(s@.subrange(start as int, i + 1) =~= s@.subrange(start as int, i as int).push(
                s@[i as int],
            ));
            assert(out@ + s@.subrange(start as int, i + 1) + remove_all(s@.skip(i + 1), pat@)
                =~= out@ + s@.subrange(start as int, i as int) + (seq![s@[i as int]] + remove_all(
                s@.skip(i + 1),
                pat@,
            )));
            i = i + 1;
        }
    }
    let ghost before = out@;
    out.append(s.substring_char(start, n));
    assert(s@.skip(n as int) =~= Seq::<char>::empty());
    assert(out@ =~= before + s@.subrange(start as int, n as int) + remove_all(
        s@.skip(n as int),
        pat@,
    ));
    out
}

/// Whether `pat` occurs somewhere in `s`.
pub open spec fn contains(s: Seq<char>, pat: Seq<char>) -> bool {
    exists|i: int| 0 <= i && i + pat.len() <= s.len() && #[trigger] s.subrange(i, i + pat.len()) == pat
}

/// Whether `pat` occurs somewhere in `s`.
pub fn contains_str(s: &str, pat: &str) -> (r: bool)
    ensures
        r == contains(s@, pat@),
{
    let n = s.unicode_len();
    let p = pat.unicode_len();
    if p > n {
        return false;
    }
    if p == 0 {
        assert(s@.subrange(0int, 0int + pat@.len()) =~= pat@);
        return true;
    }
    let mut i: usize = 0;
    while i <= n - p
        invariant
            n == s@.len(),
            p == pat@.len(),
            0 < p <= n,
            i <= n - p + 1,
            forall|j: int| 0 <= j < i ==> #[trigger] s@.subrange(j, j + p) != pat@,
        decreases n - p + 1 - i,
    {
        if matches_at(s, i, pat) {
            return true;
        }
        i = i + 1;
    }
    false
}

/// Whether a segment is a quantisation tag: it begins with `q` or `Q`.
pub open spec fn is_quant(seg: Seq<char>) -> bool {
    seg.len() > 0 && (seg[0] == 'q' || seg[0] == 'Q')
}

/// The first segment that is a quantisation tag, if any.
pub open spec fn first_quant(segs: Seq<Seq<char>>) -> Option<Seq<char>>
    decreases segs.len(),
{
    if segs.len() == 0 {
        None
    } else if is_quant(segs[0]) {
        Some(segs[0])
    } else {
        first_quant(segs.skip(1))
    }
}

/// Finds the first segment that is a quantisation tag.
pub fn find_quant(segs: &Vec<String>) -> (r: Option<String>)
    ensures
        opt_view(r) == first_quant(views(segs@)),
{
    let ghost all = views(segs@);
    let mut i: usize = 0;
    assert(all.skip(0) =~= all);
    while i < segs.len()
        invariant
            all == views(segs@),
            i <= segs@.len(),
            first_quant(all) == first_quant(all.skip(i as int)),
        decreases segs.len() - i,
    {
        let seg = segs[i].as_str();
        let ghost rest = all.skip(i as int);
        assert(rest[0] == seg@);
        assert(rest.skip(1) =~= all.skip(i + 1));
        if seg.unicode_len() > 0 {
            let c = seg.get_char(0);
            if c == 'q' || c == 'Q' {
                return Some(segs[i].clone());
            }
        }
        i = i + 1;
    }
    assert(all.skip(i as int) =~= Seq::<Seq<char>>::empty());
    None
}

} // verus!
