//! Character-sequence utilities: the executable string operations the engine
//! relies on, each tied to a spec-level definition over `Seq<char>`.
use vstd::prelude::*;

verus! {

/// Relies on str::chars: yields the characters of the string in order.
#[verifier::external_body]
pub fn str_to_chars(s: &str) -> (r: Vec<char>)
    ensures
        r@ == s@,
{
    s.chars().collect()
}

/// Relies on String's FromIterator over characters: builds the string holding
/// exactly those characters in order.
#[verifier::external_body]
pub fn chars_to_string(v: &Vec<char>) -> (r: String)
    ensures
        r@ == v@,
{
    v.iter().collect()
}

/// Equality of two strings, decided character by character.
pub fn str_eq(a: &str, b: &str) -> (r: bool)
    ensures
        r == (a@ == b@),
{
    let sa = String::from_str(a);
    let sb = String::from_str(b);
    sa == sb
}

/// The needle occurs in the haystack starting at position `i`.
pub open spec fn spec_contains_at(h: Seq<char>, n: Seq<char>, i: int) -> bool {
    0 <= i && i + n.len() <= h.len() && h.subrange(i, i + n.len()) == n
}

/// The needle occurs somewhere in the haystack (substring containment).
pub open spec fn spec_contains(h: Seq<char>, n: Seq<char>) -> bool {
    exists|i: int| spec_contains_at(h, n, i)
}

/// Does the needle occur in `h` exactly at position `i`?
fn match_at(h: &Vec<char>, n: &Vec<char>, i: usize) -> (r: bool)
    requires
        i + n@.len() <= h@.len(),
    ensures
        r == (h@.subrange(i as int, i + n@.len()) == n@),
{
    let hl: usize = h.len();
    let mut j: usize = 0;
    while j < n.len()
        invariant
            0 <= j <= n@.len(),
            i + n@.len() <= h@.len(),
            hl == h@.len(),
            forall|k: int| 0 <= k < j ==> h@[i + k] == n@[k],
        decreases n@.len() - j,
    {
        if h[i + j] != n[j] {
            assert(h@.subrange(i as int, i + n@.len())[j as int] == h@[i + j]);
            return false;
        }
        j = j + 1;
    }
    assert(h@.subrange(i as int, i + n@.len()) =~= n@);
    true
}

/// Substring search: does `hay` contain `needle`?
pub fn contains_sub(hay: &Vec<char>, needle: &Vec<char>) -> (r: bool)
    ensures
        r == spec_contains(hay@, needle@),
{
    if needle.len() > hay.len() {
        assert(forall|i: int| !spec_contains_at(hay@, needle@, i));
        return false;
    }
    if needle.len() == 0 {
        assert(hay@.subrange(0, 0) =~= needle@);
        assert(spec_contains_at(hay@, needle@, 0));
        return true;
    }
    let mut i: usize = 0;
    while i <= hay.len() - needle.len()
        invariant
            1 <= needle@.len() <= hay@.len(),
            0 <= i <= hay@.len() - needle@.len() + 1,
            forall|k: int| 0 <= k < i ==> !spec_contains_at(hay@, needle@, k),
        decreases hay@.len() - needle@.len() - i + 1,
    {
        if match_at(hay, needle, i) {
            assert(spec_contains_at(hay@, needle@, i as int));
            return true;
        }
        i = i + 1;
    }
    false
}

/// Convenience form: does `hay` contain the literal `needle`?
pub fn contains_lit(hay: &Vec<char>, needle: &str) -> (r: bool)
    ensures
        r == spec_contains(hay@, needle@),
{
    let n = str_to_chars(needle);
    contains_sub(hay, &n)
}

/// ASCII lowercase of one character; other characters are unchanged.
pub open spec fn spec_lower_char(c: char) -> char {
    if 'A' <= c && c <= 'Z' {
        ((c as u8) + 32) as char
    } else {
        c
    }
}

/// ASCII lowercase of a character sequence.
pub open spec fn spec_lower(s: Seq<char>) -> Seq<char> {
    s.map(|i: int, c: char| spec_lower_char(c))
}

/// Lowercases the ASCII letters of `v`; other characters are kept.
pub fn lower_chars(v: &Vec<char>) -> (r: Vec<char>)
    ensures
        r@ == spec_lower(v@),
{
    let mut r: Vec<char> = Vec::new();
    let mut i: usize = 0;
    while i < v.len()
        invariant
            0 <= i <= v.len(),
            r@ =~= spec_lower(v@.subrange(0, i as int)),
        decreases v.len() - i,
    {
        let c = v[i];
        let lc = if 'A' <= c && c <= 'Z' {
            (((c as u8) + 32) as u8) as char
        } else {
            c
        };
        r.push(lc);
        assert(spec_lower(v@.subrange(0, i as int + 1)) =~= spec_lower(
            v@.subrange(0, i as int),
        ).push(spec_lower_char(v@[i as int])));
        i = i + 1;
    }
    assert(v@.subrange(0, v@.len() as int) =~= v@);
    r
}

/// The sequence `h` starts with the prefix `p`.
pub open spec fn spec_starts_with(h: Seq<char>, p: Seq<char>) -> bool {
    p.len() <= h.len() && h.subrange(0, p.len() as int) == p
}

/// The sequence `h` ends with the suffix `p`.
pub open spec fn spec_ends_with(h: Seq<char>, p: Seq<char>) -> bool {
    p.len() <= h.len() && h.subrange(h.len() - p.len(), h.len() as int) == p
}

/// Does `h` start with `p`?
pub fn starts_with_chars(h: &Vec<char>, p: &Vec<char>) -> (r: bool)
    ensures
        r == spec_starts_with(h@, p@),
{
    if p.len() > h.len() {
        return false;
    }
    let mut j: usize = 0;
    while j < p.len()
        invariant
            0 <= j <= p.len() <= h.len(),
            h@.subrange(0, j as int) == p@.subrange(0, j as int),
        decreases p.len() - j,
    {
        if h[j] != p[j] {
            assert(h@.subrange(0, p@.len() as int)[j as int] != p@[j as int]);
            return false;
        }
        assert(h@.subrange(0, j as int + 1) =~= h@.subrange(0, j as int).push(h@[j as int]));
        assert(p@.subrange(0, j as int + 1) =~= p@.subrange(0, j as int).push(p@[j as int]));
        j = j + 1;
    }
    assert(p@.subrange(0, p@.len() as int) =~= p@);
    true
}

/// Does `h` end with `p`?
pub fn ends_with_chars(h: &Vec<char>, p: &Vec<char>) -> (r: bool)
    ensures
        r == spec_ends_with(h@, p@),
{
    if p.len() > h.len() {
        return false;
    }
    let off: usize = h.len() - p.len();
    let mut j: usize = 0;
    while j < p.len()
        invariant
            0 <= j <= p.len() <= h.len(),
            off == h@.len() - p@.len(),
            h@.subrange(off as int, off + j) == p@.subrange(0, j as int),
        decreases p.len() - j,
    {
        if h[off + j] != p[j] {
            assert(h@.subrange(off as int, h@.len() as int)[j as int] != p@[j as int]);
            return false;
        }
        assert(h@.subrange(off as int, off + j + 1) =~= h@.subrange(off as int, off + j).push(
            h@[off + j],
        ));
        assert(p@.subrange(0, j as int + 1) =~= p@.subrange(0, j as int).push(p@[j as int]));
        j = j + 1;
    }
    assert(h@.subrange(off as int, h@.len() as int) =~= h@.subrange(off as int, off + p@.len()));
    assert(p@.subrange(0, p@.len() as int) =~= p@);
    true
}

/// Copies the characters of `src` onto the end of `dst`.
pub fn push_chars(dst: &mut Vec<char>, src: &Vec<char>)
    ensures
        final(dst)@ == old(dst)@ + src@,
{
    let mut i: usize = 0;
    while i < src.len()
        invariant
            0 <= i <= src.len(),
            dst@ =~= old(dst)@ + src@.subrange(0, i as int),
        decreases src.len() - i,
    {
        dst.push(src[i]);
        assert(old(dst)@ + src@.subrange(0, i as int + 1) =~= (old(dst)@ + src@.subrange(
            0,
            i as int,
        )).push(src@[i as int]));
        i = i + 1;
    }
    assert(src@.subrange(0, src@.len() as int) =~= src@);
}

/// Appends the characters of a string literal onto `dst`.
pub fn push_lit(dst: &mut Vec<char>, lit: &str)
    ensures
        final(dst)@ == old(dst)@ + lit@,
{
    let l = str_to_chars(lit);
    push_chars(dst, &l);
}

/// The slice of `v` between `from` and `to`.
pub fn subrange_chars(v: &Vec<char>, from: usize, to: usize) -> (r: Vec<char>)
    requires
        0 <= from <= to <= v@.len(),
    ensures
        r@ == v@.subrange(from as int, to as int),
{
    let mut r: Vec<char> = Vec::new();
    let mut i: usize = from;
    while i < to
        invariant
            from <= i <= to <= v@.len(),
            r@ =~= v@.subrange(from as int, i as int),
        decreases to - i,
    {
        r.push(v[i]);
        assert(v@.subrange(from as int, i as int + 1) =~= v@.subrange(from as int, i as int).push(
            v@[i as int],
        ));
        i = i + 1;
    }
    r
}

/// Splitting on a separator character, keeping empty tokens: one token more
/// than there are separators.
pub open spec fn spec_split_on(s: Seq<char>, sep: char) -> Seq<Seq<char>>
    decreases s.len(),
{
    if s.len() == 0 {
        seq![Seq::<char>::empty()]
    } else if s[0] == sep {
        seq![Seq::<char>::empty()] + spec_split_on(s.drop_first(), sep)
    } else {
        let rest = spec_split_on(s.drop_first(), sep);
        seq![seq![s[0]] + rest[0]] + rest.drop_first()
    }
}

/// A split always yields at least one token.
pub proof fn lemma_split_on_len(s: Seq<char>, sep: char)
    ensures
        spec_split_on(s, sep).len() >= 1,
    decreases s.len(),
{
    if s.len() > 0 {
        lemma_split_on_len(s.drop_first(), sep);
    }
}

/// The split with its first token extended at the front by `p`.
pub open spec fn spec_prepend_first(p: Seq<char>, ss: Seq<Seq<char>>) -> Seq<Seq<char>> {
    seq![p + ss[0]] + ss.drop_first()
}

/// Splits `v` on the separator, keeping empty tokens.
#[verifier::loop_isolation(false)]
pub fn split_on(v: &Vec<char>, sep: char) -> (r: Vec<Vec<char>>)
    ensures
        r.deep_view() == spec_split_on(v@, sep),
{
    let ghost whole = spec_split_on(v@, sep);
    let mut out: Vec<Vec<char>> = Vec::new();
    let mut cur: Vec<char> = Vec::new();
    proof {
        lemma_split_on_len(v@, sep);
        assert(v@.skip(0) =~= v@);
        assert(Seq::<char>::empty() + whole[0] =~= whole[0]);
        assert(spec_prepend_first(Seq::<char>::empty(), whole) =~= whole);
        assert(out.deep_view() + spec_prepend_first(cur@, spec_split_on(v@.skip(0), sep))
            =~= whole);
    }
    let mut i: usize = 0;
    while i < v.len()
        invariant
            0 <= i <= v@.len(),
            spec_split_on(v@.skip(i as int), sep).len() >= 1,
            out.deep_view() + spec_prepend_first(cur@, spec_split_on(v@.skip(i as int), sep))
                == whole,
        decreases v@.len() - i,
    {
        let ghost pre = spec_split_on(v@.skip(i as int), sep);
        let ghost post = spec_split_on(v@.skip(i as int + 1), sep);
        proof {
            lemma_split_on_len(v@.skip(i as int + 1), sep);
            assert(v@.skip(i as int)[0] == v@[i as int]);
            assert(v@.skip(i as int).drop_first() =~= v@.skip(i as int + 1));
        }
        let c = v[i];
        if c == sep {
            assert(pre =~= seq![Seq::<char>::empty()] + post);
            let ghost old_dv = out.deep_view();
            let ghost curv = cur@;
            out.push(cur);
            cur = Vec::new();
            proof {
                assert(out.deep_view() =~~= old_dv.push(curv));
                assert(spec_prepend_first(curv, pre) =~= seq![curv] + post);
                assert(spec_prepend_first(cur@, post) =~= post);
                assert(old_dv.push(curv) + post =~= old_dv + (seq![curv] + post));
            }
        } else {
            proof {
                assert(pre =~= seq![seq![v@[i as int]] + post[0]] + post.drop_first());
                assert(cur@.push(c) + post[0] =~= cur@ + pre[0]);
                assert(spec_prepend_first(cur@.push(c), post) =~= spec_prepend_first(cur@, pre));
            }
            cur.push(c);
        }
        i = i + 1;
    }
    proof {
        assert(v@.skip(v@.len() as int) =~= Seq::<char>::empty());
        let e = spec_split_on(Seq::<char>::empty(), sep);
        assert(e =~= seq![Seq::<char>::empty()]);
        assert(spec_prepend_first(cur@, e) =~= seq![cur@]);
    }
    let ghost old_dv = out.deep_view();
    let ghost curv = cur@;
    out.push(cur);
    proof {
        assert(out.deep_view() =~~= old_dv.push(curv));
        assert(old_dv.push(curv) =~= old_dv + seq![curv]);
        assert(out.deep_view() =~= whole);
    }
    out
}

/// The character counts as whitespace for token splitting.
pub open spec fn spec_is_ws(c: char) -> bool {
    c == ' ' || c == '\t' || c == '\r' || c == '\n'
}

/// Splitting on whitespace characters, keeping empty tokens.
pub open spec fn spec_split_ws_raw(s: Seq<char>) -> Seq<Seq<char>>
    decreases s.len(),
{
    if s.len() == 0 {
        seq![Seq::<char>::empty()]
    } else if spec_is_ws(s[0]) {
        seq![Seq::<char>::empty()] + spec_split_ws_raw(s.drop_first())
    } else {
        let rest = spec_split_ws_raw(s.drop_first());
        seq![seq![s[0]] + rest[0]] + rest.drop_first()
    }
}

/// A whitespace split always yields at least one token.
pub proof fn lemma_split_ws_raw_len(s: Seq<char>)
    ensures
        spec_split_ws_raw(s).len() >= 1,
    decreases s.len(),
{
    if s.len() > 0 {
        lemma_split_ws_raw_len(s.drop_first());
    }
}

/// The whitespace-separated tokens of `s`, empties dropped.
pub open spec fn spec_split_ws(s: Seq<char>) -> Seq<Seq<char>> {
    spec_split_ws_raw(s).filter(|t: Seq<char>| t.len() > 0)
}

/// Splits `v` on runs of whitespace into its nonempty tokens.
#[verifier::loop_isolation(false)]
pub fn split_ws(v: &Vec<char>) -> (r: Vec<Vec<char>>)
    ensures
        r.deep_view() == spec_split_ws(v@),
{
    let ghost whole = spec_split_ws_raw(v@);
    let mut raw: Vec<Vec<char>> = Vec::new();
    let mut cur: Vec<char> = Vec::new();
    proof {
        lemma_split_ws_raw_len(v@);
        assert(v@.skip(0) =~= v@);
        assert(Seq::<char>::empty() + whole[0] =~= whole[0]);
        assert(spec_prepend_first(Seq::<char>::empty(), whole) =~= whole);
        assert(raw.deep_view() + spec_prepend_first(cur@, spec_split_ws_raw(v@.skip(0)))
            =~= whole);
    }
    let mut i: usize = 0;
    while i < v.len()
        invariant
            0 <= i <= v@.len(),
            spec_split_ws_raw(v@.skip(i as int)).len() >= 1,
            raw.deep_view() + spec_prepend_first(cur@, spec_split_ws_raw(v@.skip(i as int)))
                == whole,
        decreases v@.len() - i,
    {
        let ghost pre = spec_split_ws_raw(v@.skip(i as int));
        let ghost post = spec_split_ws_raw(v@.skip(i as int + 1));
        proof {
            lemma_split_ws_raw_len(v@.skip(i as int + 1));
            assert(v@.skip(i as int)[0] == v@[i as int]);
            assert(v@.skip(i as int).drop_first() =~= v@.skip(i as int + 1));
        }
        let c = v[i];
        if c == ' ' || c == '\t' || c == '\r' || c == '\n' {
            assert(pre =~= seq![Seq::<char>::empty()] + post);
            let ghost old_dv = raw.deep_view();
            let ghost curv = cur@;
            raw.push(cur);
            cur = Vec::new();
            proof {
                assert(raw.deep_view() =~~= old_dv.push(curv));
                assert(spec_prepend_first(curv, pre) =~= seq![curv] + post);
                assert(spec_prepend_first(cur@, post) =~= post);
                assert(old_dv.push(curv) + post =~= old_dv + (seq![curv] + post));
            }
        } else {
            proof {
                assert(pre =~= seq![seq![v@[i as int]] + post[0]] + post.drop_first());
                assert(cur@.push(c) + post[0] =~= cur@ + pre[0]);
                assert(spec_prepend_first(cur@.push(c), post) =~= spec_prepend_first(cur@, pre));
            }
            cur.push(c);
        }
        i = i + 1;
    }
    proof {
        assert(v@.skip(v@.len() as int) =~= Seq::<char>::empty());
        let e = spec_split_ws_raw(Seq::<char>::empty());
        assert(e =~= seq![Seq::<char>::empty()]);
        assert(spec_prepend_first(cur@, e) =~= seq![cur@]);
    }
    let ghost old_dv2 = raw.deep_view();
    let ghost curv2 = cur@;
    raw.push(cur);
    proof {
        assert(raw.deep_view() =~~= old_dv2.push(curv2));
        assert(old_dv2.push(curv2) =~= old_dv2 + seq![curv2]);
        assert(raw.deep_view() =~= whole);
    }
    let mut out: Vec<Vec<char>> = Vec::new();
    let mut k: usize = 0;
    proof {
        reveal(Seq::filter);
        assert(raw.deep_view().take(0) =~= Seq::<Seq<char>>::empty());
        assert(out.deep_view() =~= raw.deep_view().take(0).filter(|t: Seq<char>| t.len() > 0));
    }
    while k < raw.len()
        invariant
            0 <= k <= raw@.len(),
            raw.deep_view() == whole,
            out.deep_view() == raw.deep_view().take(k as int).filter(
                |t: Seq<char>| t.len() > 0,
            ),
        decreases raw@.len() - k,
    {
        let ghost takek = raw.deep_view().take(k as int);
        let ghost takek1 = raw.deep_view().take(k as int + 1);
        proof {
            reveal(Seq::filter);
            assert(takek1.drop_last() =~= takek);
            assert(takek1.last() == raw.deep_view()[k as int]);
        }
        if raw[k].len() > 0 {
            let t = subrange_chars(&raw[k], 0, raw[k].len());
            assert(t@ =~~= raw.deep_view()[k as int]);
            let ghost old_dv3 = out.deep_view();
            let ghost tv = t@;
            out.push(t);
            proof {
                assert(out.deep_view() =~~= old_dv3.push(tv));
                assert(out.deep_view() =~= takek1.filter(|t: Seq<char>| t.len() > 0));
            }
        } else {
            assert(out.deep_view() =~= takek1.filter(|t: Seq<char>| t.len() > 0));
        }
        k = k + 1;
    }
    proof {
        assert(raw.deep_view().take(raw@.len() as int) =~= raw.deep_view());
    }
    out
}

} // verus!
