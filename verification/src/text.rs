//! Character-sequence helpers on which the string logic of the library rests.
//!
//! Strings are reasoned about through their views, sequences of `char`. The
//! order used for file names is the lexicographic order on characters by code
//! point, which for UTF-8 text is the byte order that `String`'s `Ord` uses.

use vstd::prelude::*;

verus! {

/// `p` is a prefix of `s`.
pub open spec fn is_prefix(p: Seq<char>, s: Seq<char>) -> bool {
    p.len() <= s.len() && s.subrange(0, p.len() as int) == p
}

/// `p` is a suffix of `s`.
pub open spec fn is_suffix(p: Seq<char>, s: Seq<char>) -> bool {
    p.len() <= s.len() && s.subrange(s.len() - p.len(), s.len() as int) == p
}

/// Lexicographic "less than" of `a` and `b`, looking from position `i` on,
/// characters compared by code point.
pub open spec fn seq_less_from(a: Seq<char>, b: Seq<char>, i: int) -> bool
    decreases a.len() - i,
{
    if i >= b.len() {
        false
    } else if i >= a.len() {
        true
    } else if a[i] != b[i] {
        a[i] < b[i]
    } else {
        seq_less_from(a, b, i + 1)
    }
}

/// Strict lexicographic order on character sequences.
pub open spec fn seq_less(a: Seq<char>, b: Seq<char>) -> bool {
    seq_less_from(a, b, 0)
}

proof fn lemma_less_from_irreflexive(a: Seq<char>, i: int)
    requires
        0 <= i,
    ensures
        !seq_less_from(a, a, i),
    decreases a.len() - i,
{
    if i < a.len() {
        lemma_less_from_irreflexive(a, i + 1);
    }
}

proof fn lemma_less_from_transitive(a: Seq<char>, b: Seq<char>, c: Seq<char>, i: int)
    requires
        0 <= i,
        seq_less_from(a, b, i),
        seq_less_from(b, c, i),
    ensures
        seq_less_from(a, c, i),
    decreases a.len() - i,
{
    if i < a.len() && i < b.len() && i < c.len() && a[i] == b[i] && b[i] == c[i] {
        lemma_less_from_transitive(a, b, c, i + 1);
    }
}

proof fn lemma_less_from_total(a: Seq<char>, b: Seq<char>, i: int)
    requires
        0 <= i <= a.len(),
        i <= b.len(),
        !seq_less_from(a, b, i),
        !seq_less_from(b, a, i),
    ensures
        a.len() == b.len(),
        forall|j: int| i <= j < a.len() ==> a[j] == b[j],
    decreases a.len() - i,
{
    if i < a.len() && i < b.len() {
        if a[i] == b[i] {
            lemma_less_from_total(a, b, i + 1);
        }
    }
}

/// `seq_less` is a strict total order.
pub proof fn lemma_seq_less_order(a: Seq<char>, b: Seq<char>, c: Seq<char>)
    ensures
        !seq_less(a, a),
        seq_less(a, b) && seq_less(b, c) ==> seq_less(a, c),
        seq_less(a, b) ==> !seq_less(b, a),
        a != b ==> seq_less(a, b) || seq_less(b, a),
{
    lemma_less_from_irreflexive(a, 0);
    if seq_less(a, b) && seq_less(b, c) {
        lemma_less_from_transitive(a, b, c, 0);
    }
    if seq_less(a, b) && seq_less(b, a) {
        lemma_less_from_transitive(a, b, a, 0);
    }
    if !seq_less(a, b) && !seq_less(b, a) {
        lemma_less_from_total(a, b, 0);
        assert(a =~= b);
    }
}

/// Collects the characters of `s` in order.
pub fn chars_of(s: &str) -> (v: Vec<char>)
    ensures
        v@ == s@,
{
    let mut v: Vec<char> = Vec::new();
    let chars = s.chars();
    for c in it: chars
        invariant
            it.seq() == s@,
            v@ == it.seq().take(it.index() as int),
    {
        v.push(c);
    }
    v
}

/// Appends one character to a string (`String::push`).
#[verifier::external_body]
pub(crate) fn push_char(s: &mut String, c: char)
    ensures
        final(s)@ == old(s)@.push(c),
{
    s.push(c);
}

/// Builds a string from a sequence of characters.
pub fn string_from_chars(v: &Vec<char>) -> (s: String)
    ensures
        s@ == v@,
{
    let mut s = String::new();
    let n = v.len();
    for i in 0..n
        invariant
            n == v@.len(),
            s@ == v@.take(i as int),
    {
        push_char(&mut s, v[i]);
        assert(v@.take(i + 1) =~= v@.take(i as int).push(v@[i as int]));
    }
    assert(v@.take(n as int) =~= v@);
    s
}

/// Builds a string holding `a` followed by `b`.
pub fn concatenate(a: &str, b: &str) -> (s: String)
    ensures
        s@ == a@ + b@,
{
    let mut s = a.to_owned();
    let bv = chars_of(b);
    let n = bv.len();
    for i in 0..n
        invariant
            n == b@.len(),
            bv@ == b@,
            s@ == a@ + b@.take(i as int),
    {
        push_char(&mut s, bv[i]);
        assert(b@.take(i + 1) =~= b@.take(i as int).push(b@[i as int]));
        assert(a@ + b@.take(i + 1) =~= (a@ + b@.take(i as int)).push(b@[i as int]));
    }
    assert(b@.take(n as int) =~= b@);
    s
}

/// Whether the characters of `a` from `start` on are those of `p`, for
/// `p.len()` characters.
fn matches_at(a: &Vec<char>, start: usize, p: &Vec<char>) -> (r: bool)
    requires
        start + p@.len() <= a@.len(),
    ensures
        r == (a@.subrange(start as int, start + p@.len()) == p@),
{
    let n = p.len();
    let mut i: usize = 0;
    while i < n
        invariant
            n == p@.len(),
            start + n <= a@.len(),
            i <= n,
            a@.len() == a.len(),
            forall|j: int| 0 <= j < i ==> a@[start + j] == p@[j],
        decreases n - i,
    {
        if a[start + i] != p[i] {
            assert(a@.subrange(start as int, start + n)[i as int] != p@[i as int]);
            return false;
        }
        i = i + 1;
    }
    assert(a@.subrange(start as int, start + n) =~= p@);
    true
}

/// Whether `a` and `b` hold the same characters.
pub fn str_eq(a: &str, b: &str) -> (r: bool)
    ensures
        r == (a@ == b@),
{
    let av = chars_of(a);
    let bv = chars_of(b);
    if av.len() != bv.len() {
        return false;
    }
    let r = matches_at(&av, 0, &bv);
    assert(av@.subrange(0, bv@.len() as int) =~= av@);
    r
}

/// Whether `s` begins with `p`.
pub fn starts_with(s: &str, p: &str) -> (r: bool)
    ensures
        r == is_prefix(p@, s@),
{
    let sv = chars_of(s);
    let pv = chars_of(p);
    if pv.len() > sv.len() {
        return false;
    }
    matches_at(&sv, 0, &pv)
}

/// Whether `s` ends with `p`.
pub fn ends_with(s: &str, p: &str) -> (r: bool)
    ensures
        r == is_suffix(p@, s@),
{
    let sv = chars_of(s);
    let pv = chars_of(p);
    if pv.len() > sv.len() {
        return false;
    }
    matches_at(&sv, sv.len() - pv.len(), &pv)
}

/// Whether `a` comes strictly before `b` in lexicographic order.
pub fn str_less(a: &str, b: &str) -> (r: bool)
    ensures
        r == seq_less(a@, b@),
{
    let av = chars_of(a);
    let bv = chars_of(b);
    let mut i: usize = 0;
    while i < av.len() && i < bv.len() && av[i] == bv[i]
        invariant
            av@ == a@,
            bv@ == b@,
            i <= av@.len(),
            i <= bv@.len(),
            seq_less(a@, b@) == seq_less_from(a@, b@, i as int),
        decreases av@.len() - i,
    {
        i = i + 1;
    }
    if i >= bv.len() {
        false
    } else if i >= av.len() {
        true
    } else {
        av[i] < bv[i]
    }
}


/// `p` is a prefix of `s` exactly when `s` is at least as long and agrees
/// with `p` character by character over the whole of `p`.
pub proof fn lemma_prefix_is_charwise(p: Seq<char>, s: Seq<char>)
    ensures
        is_prefix(p, s) <==> (p.len() <= s.len() && forall|i: int| 0 <= i < p.len() ==> s[i] == p[i]),
{
    if p.len() <= s.len() && forall|i: int| 0 <= i < p.len() ==> s[i] == p[i] {
        assert(s.subrange(0, p.len() as int) =~= p);
    }
    if is_prefix(p, s) {
        assert forall|i: int| 0 <= i < p.len() implies s[i] == p[i] by {
            assert(s.subrange(0, p.len() as int)[i] == s[i]);
        }
    }
}

/// `p` is a suffix of `s` exactly when `s` is at least as long and its last
/// `p.len()` characters agree with `p` one by one.
pub proof fn lemma_suffix_is_charwise(p: Seq<char>, s: Seq<char>)
    ensures
        is_suffix(p, s) <==> (p.len() <= s.len() && forall|i: int|
            0 <= i < p.len() ==> s[s.len() - p.len() + i] == p[i]),
{
    if p.len() <= s.len() && forall|i: int| 0 <= i < p.len() ==> s[s.len() - p.len() + i] == p[i] {
        assert(s.subrange(s.len() - p.len(), s.len() as int) =~= p);
    }
    if is_suffix(p, s) {
        assert forall|i: int| 0 <= i < p.len() implies s[s.len() - p.len() + i] == p[i] by {
            assert(s.subrange(s.len() - p.len(), s.len() as int)[i] == s[s.len() - p.len() + i]);
        }
    }
}

/// Two texts of equal length that differ somewhere are not prefixes of one
/// another.
pub proof fn lemma_different_dates_no_prefix(p: Seq<char>, s: Seq<char>, k: int)
    requires
        p.len() == s.len(),
        0 <= k < p.len(),
        p[k] != s[k],
    ensures
        !is_prefix(p, s),
        !is_prefix(s, p),
{
    lemma_prefix_is_charwise(p, s);
    lemma_prefix_is_charwise(s, p);
}

} // verus!
