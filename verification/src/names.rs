//! Sets of resource ids held in vectors of strings.

use vstd::prelude::*;

use crate::text::str_eq;

verus! {

/// The ids held in `s`.
pub open spec fn ids_of(s: Seq<String>) -> Set<Seq<char>> {
    Set::new(|k: Seq<char>| exists|i: int| 0 <= i < s.len() && #[trigger] s[i]@ == k)
}

/// No id occurs twice in `s`.
pub open spec fn ids_distinct(s: Seq<String>) -> bool {
    forall|i: int, j: int| 0 <= i < j < s.len() ==> #[trigger] s[i]@ != #[trigger] s[j]@
}

/// The ids of `s` are finite, and as many as its entries when these are distinct.
pub proof fn lemma_ids_of_len(s: Seq<String>)
    ensures
        ids_of(s).finite(),
        ids_of(s).len() <= s.len(),
        ids_distinct(s) ==> ids_of(s).len() == s.len(),
{
    let keys = s.map_values(|x: String| x@);
    assert(ids_of(s) =~= keys.to_set()) by {
        assert forall|k: Seq<char>| ids_of(s).contains(k) implies keys.to_set().contains(k) by {
            let i = choose|i: int| 0 <= i < s.len() && #[trigger] s[i]@ == k;
            assert(keys[i] == k);
        }
        assert forall|k: Seq<char>| keys.to_set().contains(k) implies ids_of(s).contains(k) by {
            let i = choose|i: int| 0 <= i < keys.len() && keys[i] == k;
            assert(s[i]@ == k);
        }
    }
    keys.lemma_cardinality_of_set();
    if ids_distinct(s) {
        assert(keys.no_duplicates()) by {
            assert forall|a: int, b: int|
                0 <= a < keys.len() && 0 <= b < keys.len() && a != b implies keys[a] != keys[b] by {
                if a < b {
                    assert(s[a]@ != s[b]@);
                } else {
                    assert(s[b]@ != s[a]@);
                }
            }
        }
        keys.unique_seq_to_set();
    }
}

/// Pushing an id adds it to the set of ids.
pub proof fn lemma_ids_of_push(s: Seq<String>, x: String)
    ensures
        ids_of(s.push(x)) == ids_of(s).insert(x@),
{
    let t = s.push(x);
    assert forall|k: Seq<char>| ids_of(t).contains(k) == ids_of(s).insert(x@).contains(k) by {
        if ids_of(s).contains(k) {
            let i = choose|i: int| 0 <= i < s.len() && #[trigger] s[i]@ == k;
            assert(t[i]@ == k);
        }
        if k == x@ {
            assert(t[s.len() as int]@ == k);
        }
        if ids_of(t).contains(k) && k != x@ {
            let i = choose|i: int| 0 <= i < t.len() && #[trigger] t[i]@ == k;
            assert(s[i]@ == k);
        }
    }
    assert(ids_of(t) =~= ids_of(s).insert(x@));
}

/// Whether `v` holds the id `s`.
pub fn contains_id(v: &Vec<String>, s: &str) -> (r: bool)
    ensures
        r == ids_of(v@).contains(s@),
{
    let mut i: usize = 0;
    while i < v.len()
        invariant
            i <= v.len(),
            forall|j: int| 0 <= j < i ==> v@[j]@ != s@,
        decreases v.len() - i,
    {
        if str_eq(v[i].as_str(), s) {
            assert(v@[i as int]@ == s@);
            return true;
        }
        i = i + 1;
    }
    false
}

/// Adds `s` to `v` unless `v` already holds it.
pub fn add_distinct(v: &mut Vec<String>, s: &String)
    requires
        ids_distinct(old(v)@),
    ensures
        ids_distinct(final(v)@),
        ids_of(final(v)@) == ids_of(old(v)@).insert(s@),
{
    if contains_id(v, s.as_str()) {
        assert(ids_of(v@).insert(s@) =~= ids_of(v@));
    } else {
        let ghost before = v@;
        let c = s.clone();
        let ghost cv = c;
        v.push(c);
        proof {
            lemma_ids_of_push(before, cv);
            assert forall|i: int, j: int| 0 <= i < j < v@.len() implies #[trigger] v@[i]@
                != #[trigger] v@[j]@ by {
                if j < before.len() {
                    assert(v@[i] == before[i]);
                    assert(v@[j] == before[j]);
                } else {
                    assert(v@[i] == before[i]);
                    assert(!ids_of(before).contains(s@));
                    if v@[i]@ == s@ {
                        assert(before[i]@ == s@);
                    }
                }
            }
        }
    }
}

} // verus!
