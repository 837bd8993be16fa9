//! Character-level string helpers used by the parsers and classifiers.

use vstd::prelude::*;
use vstd::utf8::is_ascii_chars;

verus! {

/// `p` is a prefix of `s`.
pub open spec fn is_prefix_of(p: Seq<char>, s: Seq<char>) -> bool {
    p.len() <= s.len() && s.take(p.len() as int) == p
}

/// `p` occurs in `s` starting at position `i`.
pub open spec fn occurs_at(p: Seq<char>, s: Seq<char>, i: int) -> bool {
    0 <= i && i + p.len() <= s.len() && s.subrange(i, i + p.len()) == p
}

/// `p` occurs somewhere in `s` as a contiguous piece.
pub open spec fn occurs_in(p: Seq<char>, s: Seq<char>) -> bool {
    exists|i: int| occurs_at(p, s, i)
}

/// Lexicographic "less than" on character sequences, comparing from position `i` on,
/// characters ordered by their scalar values.
pub open spec fn lex_lt_from(a: Seq<char>, b: Seq<char>, i: nat) -> bool
    decreases a.len() - i,
{
    if i >= a.len() {
        i < b.len()
    } else if i >= b.len() {
        false
    } else if (a[i as int] as int) < (b[i as int] as int) {
        true
    } else if a[i as int] == b[i as int] {
        lex_lt_from(a, b, i + 1)
    } else {
        false
    }
}

/// Lexicographic order on character sequences (the order in which Rust sorts `String`s:
/// UTF-8 byte order and scalar-value order coincide).
pub open spec fn lex_lt(a: Seq<char>, b: Seq<char>) -> bool {
    lex_lt_from(a, b, 0)
}

/// `lex_lt_from` is irreflexive, total on distinct tails, and transitive.
pub proof fn lemma_lex_from_trichotomy(a: Seq<char>, b: Seq<char>, i: nat)
    requires
        i <= a.len(),
        i <= b.len(),
        a.take(i as int) == b.take(i as int),
    ensures
        a == b ==> !lex_lt_from(a, b, i),
        a != b ==> (lex_lt_from(a, b, i) != lex_lt_from(b, a, i)),
    decreases a.len() - i,
{
    if i >= a.len() || i >= b.len() {
        if a.len() == b.len() {
            assert(a == a.take(i as int));
            assert(b == b.take(i as int));
        }
    } else if a[i as int] == b[i as int] {
        assert(a.take(i + 1 as int) == a.take(i as int).push(a[i as int]));
        assert(b.take(i + 1 as int) == b.take(i as int).push(b[i as int]));
        lemma_lex_from_trichotomy(a, b, i + 1);
    } else {
        assert((a[i as int] as int) != (b[i as int] as int));
    }
}

/// Transitivity of `lex_lt_from` over a common prefix.
pub proof fn lemma_lex_from_transitive(a: Seq<char>, b: Seq<char>, c: Seq<char>, i: nat)
    requires
        lex_lt_from(a, b, i),
        lex_lt_from(b, c, i),
    ensures
        lex_lt_from(a, c, i),
    decreases a.len() - i,
{
    if i >= a.len() {
    } else if i >= b.len() {
    } else if i >= c.len() {
    } else if a[i as int] == b[i as int] && b[i as int] == c[i as int] {
        lemma_lex_from_transitive(a, b, c, i + 1);
    } else {
        assert((a[i as int] as int) < (c[i as int] as int));
    }
}

/// Lexicographic order is a strict total order.
pub proof fn lemma_lex_lt_total(a: Seq<char>, b: Seq<char>)
    ensures
        !lex_lt(a, a),
        a != b ==> (lex_lt(a, b) || lex_lt(b, a)),
        !(lex_lt(a, b) && lex_lt(b, a)),
{
    assert(a.take(0) == b.take(0));
    lemma_lex_from_trichotomy(a, b, 0);
    assert(a.take(0) == a.take(0));
    lemma_lex_from_trichotomy(a, a, 0);
    if lex_lt(a, b) && lex_lt(b, a) {
        lemma_lex_from_transitive(a, b, a, 0);
    }
}

/// Lexicographic order is transitive.
pub proof fn lemma_lex_lt_transitive(a: Seq<char>, b: Seq<char>, c: Seq<char>)
    requires
        lex_lt(a, b),
        lex_lt(b, c),
    ensures
        lex_lt(a, c),
{
    lemma_lex_from_transitive(a, b, c, 0);
}

/// The characters of `s`, in order.
pub fn chars_of(s: &str) -> (v: Vec<char>)
    ensures
        v@ == s@,
{
    let mut v: Vec<char> = Vec::new();
    for c in it: s.chars()
        invariant
            v@ == it.seq().take(it.index() as int),
    {
        v.push(c);
    }
    v
}

/// Whether two character vectors hold the same characters.
fn same_chars(a: &Vec<char>, b: &Vec<char>) -> (r: bool)
    ensures
        r == (a@ == b@),
{
    if a.len() != b.len() {
        return false;
    }
    let mut i: usize = 0;
    while i < a.len()
        invariant
            a.len() == b.len(),
            i <= a.len(),
            a@.take(i as int) == b@.take(i as int),
        decreases a.len() - i,
    {
        if a[i] != b[i] {
            return false;
        }
        assert(a@.take(i + 1) == a@.take(i as int).push(a@[i as int]));
        assert(b@.take(i + 1) == b@.take(i as int).push(b@[i as int]));
        i = i + 1;
    }
    assert(a@ == a@.take(a.len() as int));
    assert(b@ == b@.take(b.len() as int));
    true
}

/// Whether two strings hold the same characters.
pub fn str_eq(a: &str, b: &str) -> (r: bool)
    ensures
        r == (a@ == b@),
{
    let va = chars_of(a);
    let vb = chars_of(b);
    same_chars(&va, &vb)
}

/// Whether `p` occurs in `s` at position `i` (character positions).
fn occurs_at_exec(p: &Vec<char>, s: &Vec<char>, i: usize) -> (r: bool)
    requires
        i + p.len() <= s.len(),
    ensures
        r == occurs_at(p@, s@, i as int),
{
    let mut k: usize = 0;
    while k < p.len()
        invariant
            i + p.len() <= s.len(),
            k <= p.len(),
            forall|j: int| 0 <= j < k ==> s@[i + j] == p@[j],
        decreases p.len() - k,
    {
        if s[i + k] != p[k] {
            assert(s@.subrange(i as int, i + p.len())[k as int] != p@[k as int]);
            return false;
        }
        k = k + 1;
    }
    assert(s@.subrange(i as int, i + p.len()) == p@);
    true
}

/// Whether `s` starts with `p`.
pub fn starts_with(s: &str, p: &str) -> (r: bool)
    ensures
        r == is_prefix_of(p@, s@),
{
    let vs = chars_of(s);
    let vp = chars_of(p);
    if vp.len() > vs.len() {
        return false;
    }
    let r = occurs_at_exec(&vp, &vs, 0);
    assert(vs@.subrange(0, vp@.len() as int) == vs@.take(vp@.len() as int));
    r
}

/// Whether `p` occurs somewhere in `s`.
pub fn contains(s: &str, p: &str) -> (r: bool)
    ensures
        r == occurs_in(p@, s@),
{
    let vs = chars_of(s);
    let vp = chars_of(p);
    if vp.len() > vs.len() {
        return false;
    }
    if vp.len() == 0 {
        assert(s@.subrange(0, 0) == p@);
        assert(occurs_at(p@, s@, 0));
        return true;
    }
    let last = vs.len() - vp.len();
    let mut i: usize = 0;
    while i <= last
        invariant
            last + vp.len() == vs.len(),
            vp.len() >= 1,
            vs@ == s@,
            vp@ == p@,
            forall|j: int| 0 <= j < i ==> !occurs_at(p@, s@, j),
        decreases last + 1 - i,
    {
        if occurs_at_exec(&vp, &vs, i) {
            return true;
        }
        i = i + 1;
    }
    false
}

/// Lexicographic comparison of two character vectors.
pub fn lex_less(a: &Vec<char>, b: &Vec<char>) -> (r: bool)
    ensures
        r == lex_lt(a@, b@),
{
    let mut i: usize = 0;
    while i < a.len() && i < b.len()
        invariant
            i <= a.len(),
            i <= b.len(),
            lex_lt(a@, b@) == lex_lt_from(a@, b@, i as nat),
        decreases a.len() - i,
    {
        let ca = a[i];
        let cb = b[i];
        if ca < cb {
            return true;
        }
        if ca != cb {
            return false;
        }
        i = i + 1;
    }
    i < b.len()
}

/// What `str::to_lowercase` gives back for a string with the characters `s`: Unicode
/// lowercase mapping, a function of the characters alone.
pub uninterp spec fn lowercase(s: Seq<char>) -> Seq<char>;

/// A character with ASCII `A`..`Z` mapped to `a`..`z`, every other one kept.
pub open spec fn ascii_lower_char(c: char) -> char {
    if 'A' <= c && c <= 'Z' {
        ((c as u32) + 32) as char
    } else {
        c
    }
}

/// The characters of `s`, each lowered as `ascii_lower_char` says.
pub open spec fn ascii_lower(s: Seq<char>) -> Seq<char> {
    s.map_values(|c: char| ascii_lower_char(c))
}

/// Trusted: calls `str::to_lowercase` from std. The contract claims that the result
/// depends on the characters of the argument alone (it is named `lowercase`), and that
/// an all-ASCII string is lowered character by character, `A`..`Z` to `a`..`z` and every
/// other ASCII character kept: the Unicode lowercase mapping, by which the function is
/// documented, is that mapping on ASCII. What it does to other characters is left unsaid.
#[verifier::external_body]
pub(crate) fn to_lowercase(s: &str) -> (r: String)
    ensures
        r@ == lowercase(s@),
        is_ascii_chars(s@) ==> r@ == ascii_lower(s@),
{
    s.to_lowercase()
}

} // verus!
