//! A table of resource weights keyed by resource id.

use vstd::prelude::*;

use crate::text::str_eq;

verus! {

/// No resource id occurs twice among the entries.
pub open spec fn keys_distinct(s: Seq<(String, i32)>) -> bool {
    forall|i: int, j: int| 0 <= i < j < s.len() ==> #[trigger] s[i].0@ != #[trigger] s[j].0@
}

/// Some entry carries the id `k`.
pub open spec fn has_key(s: Seq<(String, i32)>, k: Seq<char>) -> bool {
    exists|j: int| 0 <= j < s.len() && #[trigger] s[j].0@ == k
}

/// The map from ids to weights (in ten-thousandths) that the entries hold.
pub open spec fn entries_map(s: Seq<(String, i32)>) -> Map<Seq<char>, int> {
    Map::new(
        |k: Seq<char>| has_key(s, k),
        |k: Seq<char>| s[choose|j: int| 0 <= j < s.len() && #[trigger] s[j].0@ == k].1 as int,
    )
}

/// Resource weights, each in ten-thousandths of a unit weight.
pub struct WeightTable {
    entries: Vec<(String, i32)>,
}

impl View for WeightTable {
    type V = Map<Seq<char>, int>;

    closed spec fn view(&self) -> Map<Seq<char>, int> {
        entries_map(self.entries@)
    }
}

proof fn lemma_entry_value(s: Seq<(String, i32)>, j: int)
    requires
        keys_distinct(s),
        0 <= j < s.len(),
    ensures
        entries_map(s).contains_key(s[j].0@),
        entries_map(s)[s[j].0@] == s[j].1 as int,
{
    let k = s[j].0@;
    assert(has_key(s, k));
    let c = choose|i: int| 0 <= i < s.len() && #[trigger] s[i].0@ == k;
    if c != j {
        if c < j {
            assert(s[c].0@ != s[j].0@);
        } else {
            assert(s[j].0@ != s[c].0@);
        }
    }
}

impl WeightTable {
    #[verifier::type_invariant]
    spec fn inv(self) -> bool {
        keys_distinct(self.entries@)
    }

    /// An empty table.
    pub fn new() -> (t: Self)
        ensures
            t@ == Map::<Seq<char>, int>::empty(),
    {
        let t = WeightTable { entries: Vec::new() };
        assert(t@ =~= Map::<Seq<char>, int>::empty());
        t
    }

    /// Removes every entry.
    pub fn clear(&mut self)
        ensures
            final(self)@ == Map::<Seq<char>, int>::empty(),
    {
        self.entries = Vec::new();
        assert(self@ =~= Map::<Seq<char>, int>::empty());
    }

    /// Sets the weight of `key` to `weight`, replacing an earlier one.
    pub fn insert(&mut self, key: &str, weight: i32)
        ensures
            final(self)@ == old(self)@.insert(key@, weight as int),
    {
        proof {
            use_type_invariant(&*self);
        }
        let ghost old_s = self.entries@;
        let mut i: usize = 0;
        while i < self.entries.len()
            invariant
                self.entries@ == old_s,
                old(self)@ == entries_map(old_s),
                keys_distinct(old_s),
                i <= old_s.len(),
                forall|j: int| 0 <= j < i ==> old_s[j].0@ != key@,
            decreases old_s.len() - i,
        {
            if str_eq(self.entries[i].0.as_str(), key) {
                let name = self.entries[i].0.clone();
                let mut entries: Vec<(String, i32)> = Vec::new();
                std::mem::swap(&mut entries, &mut self.entries);
                entries.set(i, (name, weight));
                let ghost new_s = entries@;
                assert(keys_distinct(new_s)) by {
                    assert forall|a: int, b: int| 0 <= a < b < new_s.len() implies #[trigger] new_s[a].0@
                        != #[trigger] new_s[b].0@ by {
                        assert(new_s[a].0@ == old_s[a].0@);
                        assert(new_s[b].0@ == old_s[b].0@);
                    }
                }
                proof {
                    assert forall|k: Seq<char>| has_key(new_s, k) == has_key(old_s, k) by {
                        if has_key(old_s, k) {
                            let j = choose|j: int| 0 <= j < old_s.len() && #[trigger] old_s[j].0@ == k;
                            assert(new_s[j].0@ == k);
                        }
                        if has_key(new_s, k) {
                            let j = choose|j: int| 0 <= j < new_s.len() && #[trigger] new_s[j].0@ == k;
                            assert(old_s[j].0@ == k);
                        }
                    }
                    assert forall|k: Seq<char>| #[trigger] has_key(new_s, k) implies entries_map(new_s)[k]
                        == entries_map(old_s).insert(key@, weight as int)[k] by {
                        let j = choose|j: int| 0 <= j < new_s.len() && #[trigger] new_s[j].0@ == k;
                        lemma_entry_value(new_s, j);
                        lemma_entry_value(old_s, j);
                        lemma_entry_value(new_s, i as int);
                        if j != i {
                            assert(new_s[j] == old_s[j]);
                        }
                    }
                    lemma_entry_value(new_s, i as int);
                    assert(new_s[i as int].0@ == key@);
                    assert(entries_map(new_s) =~= entries_map(old_s).insert(key@, weight as int));
                }
                self.entries = entries;
                return;
            }
            i = i + 1;
        }
        let mut entries: Vec<(String, i32)> = Vec::new();
                std::mem::swap(&mut entries, &mut self.entries);
        entries.push((key.to_owned(), weight));
        let ghost new_s = entries@;
        assert(keys_distinct(new_s)) by {
            assert forall|a: int, b: int| 0 <= a < b < new_s.len() implies #[trigger] new_s[a].0@
                != #[trigger] new_s[b].0@ by {
                if b < old_s.len() {
                    assert(new_s[a] == old_s[a]);
                    assert(new_s[b] == old_s[b]);
                } else {
                    assert(new_s[a] == old_s[a]);
                }
            }
        }
        proof {
            assert forall|k: Seq<char>| has_key(new_s, k) == (has_key(old_s, k) || k == key@) by {
                if has_key(old_s, k) {
                    let j = choose|j: int| 0 <= j < old_s.len() && #[trigger] old_s[j].0@ == k;
                    assert(new_s[j] == old_s[j]);
                }
                if k == key@ {
                    assert(new_s[old_s.len() as int].0@ == k);
                }
                if has_key(new_s, k) && k != key@ {
                    let j = choose|j: int| 0 <= j < new_s.len() && #[trigger] new_s[j].0@ == k;
                    assert(j < old_s.len());
                    assert(new_s[j] == old_s[j]);
                }
            }
            assert forall|k: Seq<char>| #[trigger] has_key(new_s, k) implies entries_map(new_s)[k]
                == entries_map(old_s).insert(key@, weight as int)[k] by {
                let j = choose|j: int| 0 <= j < new_s.len() && #[trigger] new_s[j].0@ == k;
                lemma_entry_value(new_s, j);
                if j < old_s.len() {
                    assert(new_s[j] == old_s[j]);
                    lemma_entry_value(old_s, j);
                }
            }
            assert(entries_map(new_s) =~= entries_map(old_s).insert(key@, weight as int));
        }
        self.entries = entries;
    }

    /// The weight of `key`, if the table has one.
    pub fn get(&self, key: &str) -> (r: Option<i32>)
        ensures
            r == (if self@.contains_key(key@) {
                Some(self@[key@] as i32)
            } else {
                None::<i32>
            }),
            r is Some ==> self@[key@] == r->0 as int,
    {
        proof {
            use_type_invariant(self);
        }
        let mut i: usize = 0;
        while i < self.entries.len()
            invariant
                keys_distinct(self.entries@),
                i <= self.entries@.len(),
                forall|j: int| 0 <= j < i ==> self.entries@[j].0@ != key@,
            decreases self.entries@.len() - i,
        {
            if str_eq(self.entries[i].0.as_str(), key) {
                proof {
                    lemma_entry_value(self.entries@, i as int);
                }
                return Some(self.entries[i].1);
            }
            i = i + 1;
        }
        proof {
            if has_key(self.entries@, key@) {
                let j = choose|j: int| 0 <= j < self.entries@.len() && #[trigger] self.entries@[j].0@
                    == key@;
                assert(self.entries@[j].0@ == key@);
            }
        }
        None
    }

    /// Number of ids in the table.
    pub fn len(&self) -> (n: usize)
        ensures
            n == self@.dom().len(),
    {
        proof {
            use_type_invariant(self);
        }
        let ghost s = self.entries@;
        proof {
            let keys = s.map_values(|e: (String, i32)| e.0@);
            assert(keys.no_duplicates()) by {
                assert forall|a: int, b: int| 0 <= a < keys.len() && 0 <= b < keys.len() && a != b
                    implies keys[a] != keys[b] by {
                    if a < b {
                        assert(s[a].0@ != s[b].0@);
                    } else {
                        assert(s[b].0@ != s[a].0@);
                    }
                }
            }
            assert(self@.dom() =~= keys.to_set()) by {
                assert forall|k: Seq<char>| self@.dom().contains(k) implies keys.to_set().contains(
                    k,
                ) by {
                    let j = choose|j: int| 0 <= j < s.len() && #[trigger] s[j].0@ == k;
                    assert(keys[j] == k);
                }
                assert forall|k: Seq<char>| keys.to_set().contains(k) implies self@.dom().contains(
                    k,
                ) by {
                    let j = choose|j: int| 0 <= j < keys.len() && keys[j] == k;
                    assert(s[j].0@ == k);
                }
            }
            keys.unique_seq_to_set();
        }
        self.entries.len()
    }

    /// The (id, weight) pairs of the table, each id once.
    pub fn pairs(&self) -> (r: &Vec<(String, i32)>)
        ensures
            keys_distinct(r@),
            entries_map(r@) == self@,
    {
        proof {
            use_type_invariant(self);
        }
        &self.entries
    }
}

} // verus!
