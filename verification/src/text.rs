use vstd::prelude::*;

verus! {

/// Number of bytes the UTF-8 encoding of `c` takes.
pub open spec fn utf8_width(c: char) -> nat {
    if (c as u32) < 0x80 {
        1
    } else if (c as u32) < 0x800 {
        2
    } else if (c as u32) < 0x10000 {
        3
    } else {
        4
    }
}

/// Number of bytes the UTF-8 encoding of `s` takes.
pub open spec fn utf8_len(s: Seq<char>) -> nat
    decreases s.len(),
{
    if s.len() == 0 {
        0
    } else {
        utf8_len(s.drop_last()) + utf8_width(s.last())
    }
}

/// Byte offset `b` lies between the `k`-th and `(k+1)`-th character of `s`.
pub open spec fn is_boundary_at(s: Seq<char>, k: int, b: int) -> bool {
    0 <= k <= s.len() && utf8_len(s.take(k)) == b
}

/// Byte offset `b` lies on a character boundary of `s`.
pub open spec fn is_char_boundary(s: Seq<char>, b: int) -> bool {
    exists|k: int| is_boundary_at(s, k, b)
}

/// Character index of the boundary at byte offset `b`.
pub open spec fn boundary_index(s: Seq<char>, b: int) -> int
    recommends
        is_char_boundary(s, b),
{
    choose|k: int| is_boundary_at(s, k, b)
}

/// Text that fits the byte counters the library keeps.
pub open spec fn fits_counters(s: Seq<char>) -> bool {
    utf8_len(s) + 8 <= usize::MAX
}

pub proof fn lemma_utf8_len_push(s: Seq<char>, c: char)
    ensures
        utf8_len(s.push(c)) == utf8_len(s) + utf8_width(c),
{
    assert(s.push(c).drop_last() =~= s);
}

pub proof fn lemma_utf8_len_take_step(s: Seq<char>, k: int)
    requires
        0 <= k < s.len(),
    ensures
        utf8_len(s.take(k + 1)) == utf8_len(s.take(k)) + utf8_width(s[k]),
{
    assert(s.take(k + 1).drop_last() =~= s.take(k));
}

pub proof fn lemma_utf8_len_take_mono(s: Seq<char>, i: int, j: int)
    requires
        0 <= i <= j <= s.len(),
    ensures
        utf8_len(s.take(i)) + (j - i) <= utf8_len(s.take(j)),
    decreases j - i,
{
    if i < j {
        lemma_utf8_len_take_mono(s, i, j - 1);
        lemma_utf8_len_take_step(s, j - 1);
    }
}

pub proof fn lemma_boundary_unique(s: Seq<char>, k1: int, k2: int, b: int)
    requires
        is_boundary_at(s, k1, b),
        is_boundary_at(s, k2, b),
    ensures
        k1 == k2,
{
    if k1 < k2 {
        lemma_utf8_len_take_mono(s, k1, k2);
    } else if k2 < k1 {
        lemma_utf8_len_take_mono(s, k2, k1);
    }
}

pub proof fn lemma_utf8_len_concat(a: Seq<char>, b: Seq<char>)
    ensures
        utf8_len(a + b) == utf8_len(a) + utf8_len(b),
    decreases b.len(),
{
    if b.len() == 0 {
        assert(a + b =~= a);
    } else {
        lemma_utf8_len_concat(a, b.drop_last());
        assert((a + b).drop_last() =~= a + b.drop_last());
    }
}

pub proof fn lemma_take_full_len(s: Seq<char>)
    ensures
        utf8_len(s.take(s.len() as int)) == utf8_len(s),
        is_boundary_at(s, s.len() as int, utf8_len(s) as int),
{
    assert(s.take(s.len() as int) =~= s);
}

pub proof fn lemma_utf8_len_take_le(s: Seq<char>, k: int)
    requires
        0 <= k <= s.len(),
    ensures
        utf8_len(s.take(k)) <= utf8_len(s),
{
    lemma_utf8_len_take_mono(s, k, s.len() as int);
    assert(s.take(s.len() as int) =~= s);
}

/// Bytes `c` takes in UTF-8.
pub fn char_width(c: char) -> (w: usize)
    ensures
        w == utf8_width(c),
        1 <= w <= 4,
{
    let v = c as u32;
    if v < 0x80 {
        1
    } else if v < 0x800 {
        2
    } else if v < 0x10000 {
        3
    } else {
        4
    }
}

/// Appends one character to a string.
#[verifier::external_body]
pub(crate) fn push_char(s: &mut String, c: char)
    ensures
        final(s)@ == old(s)@.push(c),
{
    s.push(c);
}

/// The characters of `s`, in order.
pub fn chars_of(s: &str) -> (v: Vec<char>)
    ensures
        v@ == s@,
{
    let mut v: Vec<char> = Vec::new();
    for c in it: s.chars()
        invariant
            v@ == it.seq().take(it.index() as int),
            it.seq() == s@,
    {
        v.push(c);
    }
    v
}

/// A string holding the characters `v[lo..hi]`.
pub fn string_from_range(v: &Vec<char>, lo: usize, hi: usize) -> (s: String)
    requires
        lo <= hi <= v.len(),
    ensures
        s@ == v@.subrange(lo as int, hi as int),
{
    let mut s = String::new();
    let mut i = lo;
    while i < hi
        invariant
            lo <= i <= hi <= v.len(),
            s@ == v@.subrange(lo as int, i as int),
        decreases hi - i,
    {
        push_char(&mut s, v[i]);
        assert(v@.subrange(lo as int, i + 1) =~= v@.subrange(lo as int, i as int).push(v@[i as int]));
        i += 1;
    }
    s
}

/// Character index of the boundary at byte `cursor` of `v`, found by
/// walking the characters.
fn find_boundary(v: &Vec<char>, cursor: usize) -> (k: usize)
    requires
        is_char_boundary(v@, cursor as int),
    ensures
        is_boundary_at(v@, k as int, cursor as int),
        k as int == boundary_index(v@, cursor as int),
{
    let ghost kk = boundary_index(v@, cursor as int);
    let n = v.len();
    let mut k: usize = 0;
    let mut bytes: usize = 0;
    proof {
        assert(v@.take(0) =~= Seq::<char>::empty());
        lemma_utf8_len_take_le(v@, kk);
    }
    while bytes < cursor
        invariant
            is_boundary_at(v@, kk, cursor as int),
            0 <= k <= kk <= n,
            n == v@.len(),
            bytes == utf8_len(v@.take(k as int)),
            bytes <= cursor,
        decreases kk - k,
    {
        proof {
            if k == kk {
                assert(false);
            }
            lemma_utf8_len_take_step(v@, k as int);
            lemma_utf8_len_take_mono(v@, k + 1, kk);
            assert(k < kk <= v@.len());
        }
        bytes = bytes + char_width(v[k]);
        k = k + 1;
    }
    proof {
        lemma_boundary_unique(v@, k as int, kk, cursor as int);
    }
    k
}

/// Text after inserting `c` at byte offset `cursor`, and the byte offset just
/// after the inserted character.
pub open spec fn insert_at_spec(s: Seq<char>, cursor: int, c: char) -> (Seq<char>, int) {
    let k = boundary_index(s, cursor);
    (s.take(k) + seq![c] + s.skip(k), cursor + utf8_width(c))
}

/// Text after deleting the character that ends at byte offset `cursor`, and
/// the byte offset where it started; unchanged when `cursor` is zero.
pub open spec fn remove_before_spec(s: Seq<char>, cursor: int) -> (Seq<char>, int) {
    if cursor <= 0 {
        (s, cursor)
    } else {
        let k = boundary_index(s, cursor);
        (s.take(k - 1) + s.skip(k), cursor - utf8_width(s[k - 1]))
    }
}

/// Inserts `c` at byte offset `cursor` of `s`; returns the new text and the
/// byte offset just after `c`.
pub fn insert_char_at(s: &String, cursor: usize, c: char) -> (r: (String, usize))
    requires
        is_char_boundary(s@, cursor as int),
        fits_counters(s@),
    ensures
        r.0@ == insert_at_spec(s@, cursor as int, c).0,
        r.1 as int == insert_at_spec(s@, cursor as int, c).1,
        is_char_boundary(r.0@, r.1 as int),
        utf8_len(r.0@) == utf8_len(s@) + utf8_width(c),
{
    let v = chars_of(s.as_str());
    let k = find_boundary(&v, cursor);
    let mut out = string_from_range(&v, 0, k);
    push_char(&mut out, c);
    let rest = string_from_range(&v, k, v.len());
    out.append(rest.as_str());
    proof {
        lemma_utf8_len_take_le(s@, k as int);
        assert(v@.subrange(0, k as int) =~= s@.take(k as int));
        assert(v@.subrange(k as int, v@.len() as int) =~= s@.skip(k as int));
        let ns = s@.take(k as int) + seq![c] + s@.skip(k as int);
        assert(ns.take(k + 1) =~= s@.take(k as int).push(c));
        lemma_utf8_len_push(s@.take(k as int), c);
        assert(is_boundary_at(ns, k + 1, cursor + utf8_width(c)));
        assert(s@ =~= s@.take(k as int) + s@.skip(k as int));
        lemma_utf8_len_concat(s@.take(k as int), s@.skip(k as int));
        lemma_utf8_len_concat(s@.take(k as int).push(c), s@.skip(k as int));
        assert(ns =~= s@.take(k as int).push(c) + s@.skip(k as int));
    }
    let w = char_width(c);
    (out, cursor + w)
}

/// Deletes the character that ends at byte offset `cursor` of `s` (nothing
/// when `cursor` is zero); returns the new text and the byte offset where
/// the deleted character began.
pub fn remove_char_before(s: &String, cursor: usize) -> (r: (String, usize))
    requires
        is_char_boundary(s@, cursor as int),
    ensures
        r.0@ == remove_before_spec(s@, cursor as int).0,
        r.1 as int == remove_before_spec(s@, cursor as int).1,
        is_char_boundary(r.0@, r.1 as int),
        utf8_len(r.0@) <= utf8_len(s@),
{
    if cursor == 0 {
        return (s.clone(), 0);
    }
    let v = chars_of(s.as_str());
    let k = find_boundary(&v, cursor);
    proof {
        if k == 0 {
            assert(s@.take(0) =~= Seq::<char>::empty());
        }
        lemma_utf8_len_take_step(s@, k - 1);
    }
    let w = char_width(v[k - 1]);
    let mut out = string_from_range(&v, 0, k - 1);
    let rest = string_from_range(&v, k, v.len());
    out.append(rest.as_str());
    proof {
        assert(v@.subrange(0, k - 1) =~= s@.take(k - 1));
        assert(v@.subrange(k as int, v@.len() as int) =~= s@.skip(k as int));
        let ns = s@.take(k - 1) + s@.skip(k as int);
        assert(ns.take(k - 1) =~= s@.take(k - 1));
        assert(is_boundary_at(ns, k - 1, cursor - w));
        assert(s@ =~= s@.take(k as int) + s@.skip(k as int));
        lemma_utf8_len_concat(s@.take(k as int), s@.skip(k as int));
        lemma_utf8_len_concat(s@.take(k - 1), s@.skip(k as int));
    }
    (out, cursor - w)
}

} // verus!

verus! {

/// Whether two strings hold the same characters.
pub fn str_eq(a: &str, b: &str) -> (r: bool)
    ensures
        r == (a@ == b@),
{
    a.to_owned() == b.to_owned()
}

} // verus!

verus! {

/// Removes the last character of `s`, if any.
pub fn pop_char(s: &mut String)
    ensures
        old(s)@.len() == 0 ==> final(s)@ == old(s)@,
        old(s)@.len() > 0 ==> final(s)@ == old(s)@.drop_last(),
{
    let v = chars_of(s.as_str());
    if v.len() > 0 {
        let t = string_from_range(&v, 0, v.len() - 1);
        *s = t;
        proof {
            assert(v@.subrange(0, v@.len() - 1) =~= v@.drop_last());
        }
    }
}

/// Number of bytes of the UTF-8 encoding of `s`.
pub fn byte_len(s: &str) -> (n: usize)
    requires
        fits_counters(s@),
    ensures
        n == utf8_len(s@),
{
    let v = chars_of(s);
    let mut n: usize = 0;
    let mut i: usize = 0;
    while i < v.len()
        invariant
            i <= v@.len(),
            v@ == s@,
            fits_counters(s@),
            n == utf8_len(s@.take(i as int)),
        decreases v@.len() - i,
    {
        proof {
            lemma_utf8_len_take_step(s@, i as int);
            lemma_utf8_len_take_le(s@, i + 1);
        }
        n = n + char_width(v[i]);
        i = i + 1;
    }
    proof {
        lemma_take_full_len(s@);
    }
    n
}

} // verus!

verus! {

/// `s` begins with `p`.
pub open spec fn has_prefix(s: Seq<char>, p: Seq<char>) -> bool {
    p.len() <= s.len() && s.take(p.len() as int) == p
}

/// `a` followed by `b`.
pub fn concat_str(a: &str, b: &str) -> (r: String)
    ensures
        r@ == a@ + b@,
{
    let mut s = String::from_str(a);
    s.append(b);
    s
}

/// `s` with white space removed from both ends.
pub fn trim_str(s: &str) -> (r: String)
    ensures
        r@ == crate::lines::trim_spec(s@),
{
    let v = chars_of(s);
    let (a, b) = crate::lines::trim_range(&v, 0, v.len());
    proof {
        assert(v@.subrange(0, v@.len() as int) =~= s@);
    }
    string_from_range(&v, a, b)
}

/// The rest of `s` after the prefix `p`, when `s` begins with `p`.
pub fn strip_prefix_str(s: &str, p: &str) -> (r: Option<String>)
    ensures
        r is Some <==> has_prefix(s@, p@),
        r is Some ==> r->0@ == s@.skip(p@.len() as int),
{
    let v = chars_of(s);
    let w = chars_of(p);
    if w.len() > v.len() {
        return None;
    }
    let mut i: usize = 0;
    while i < w.len()
        invariant
            i <= w@.len() <= v@.len(),
            v@ == s@,
            w@ == p@,
            forall|j: int| 0 <= j < i ==> v@[j] == w@[j],
        decreases w@.len() - i,
    {
        if v[i] != w[i] {
            proof {
                assert(s@.take(p@.len() as int)[i as int] != p@[i as int]);
            }
            return None;
        }
        i += 1;
    }
    proof {
        assert(s@.take(p@.len() as int) =~= p@);
        assert(v@.subrange(w@.len() as int, v@.len() as int) =~= s@.skip(p@.len() as int));
    }
    Some(string_from_range(&v, w.len(), v.len()))
}

} // verus!
