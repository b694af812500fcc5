//! A small map keyed by strings, kept as a list of distinct keys.

use vstd::prelude::*;

use crate::text::str_equal;

verus! {

/// A finite map from strings to values; each key occurs once.
pub struct StrMap<V> {
    entries: Vec<(String, V)>,
}

/// The keys of `s` are pairwise distinct.
pub open spec fn keys_distinct<V>(s: Seq<(String, V)>) -> bool {
    forall|i: int, j: int|
        0 <= i < s.len() && 0 <= j < s.len() && i != j ==> s[i].0@ != s[j].0@
}

/// `s` has an entry whose key is `k`.
pub open spec fn has_key<V>(s: Seq<(String, V)>, k: Seq<char>) -> bool {
    exists|i: int| 0 <= i < s.len() && s[i].0@ == k
}

/// The map that the entry list `s` stands for.
pub open spec fn entries_map<V>(s: Seq<(String, V)>) -> Map<Seq<char>, V> {
    Map::new(
        |k: Seq<char>| has_key(s, k),
        |k: Seq<char>| s[choose|i: int| 0 <= i < s.len() && s[i].0@ == k].1,
    )
}

/// With distinct keys, the entry at `i` is what the map holds for its key.
proof fn lemma_entry_in_map<V>(s: Seq<(String, V)>, i: int)
    requires
        keys_distinct(s),
        0 <= i < s.len(),
    ensures
        entries_map(s).contains_key(s[i].0@),
        entries_map(s)[s[i].0@] == s[i].1,
{
    let k = s[i].0@;
    assert(has_key(s, k));
    let j = choose|j: int| 0 <= j < s.len() && s[j].0@ == k;
    assert(j == i);
}

impl<V> View for StrMap<V> {
    type V = Map<Seq<char>, V>;

    closed spec fn view(&self) -> Map<Seq<char>, V> {
        entries_map(self.entries@)
    }
}

impl<V> StrMap<V> {
    #[verifier::type_invariant]
    spec fn well_formed(self) -> bool {
        keys_distinct(self.entries@)
    }

    /// An empty map.
    pub fn new() -> (m: Self)
        ensures
            m@ == Map::<Seq<char>, V>::empty(),
    {
        let m = StrMap { entries: Vec::new() };
        assert(m@ =~= Map::<Seq<char>, V>::empty());
        m
    }

    /// The position of `key` in the entry list, if it is there.
    fn find(&self, key: &str) -> (r: Option<usize>)
        ensures
            r matches Some(i) ==> i < self.entries@.len() && self.entries@[i as int].0@ == key@,
            r is None ==> !has_key(self.entries@, key@),
    {
        let n = self.entries.len();
        let mut i: usize = 0;
        while i < n
            invariant
                n == self.entries@.len(),
                i <= n,
                forall|j: int| 0 <= j < i ==> self.entries@[j].0@ != key@,
            decreases n - i,
        {
            if str_equal(self.entries[i].0.as_str(), key) {
                return Some(i);
            }
            i = i + 1;
        }
        None
    }

    /// The value stored under `key`.
    pub fn get(&self, key: &str) -> (r: Option<&V>)
        ensures
            r is Some <==> self@.contains_key(key@),
            r matches Some(v) ==> self@[key@] == *v,
    {
        proof {
            use_type_invariant(self);
        }
        match self.find(key) {
            Some(i) => {
                proof {
                    lemma_entry_in_map(self.entries@, i as int);
                }
                Some(&self.entries[i].1)
            },
            None => None,
        }
    }

    /// Stores `value` under `key`, replacing what was there.
    pub fn insert(&mut self, key: String, value: V)
        ensures
            final(self)@ == old(self)@.insert(key@, value),
    {
        proof {
            use_type_invariant(&*self);
        }
        let ghost k = key@;
        let ghost before = self.entries@;
        let found = self.find(key.as_str());
        let mut entries: Vec<(String, V)> = Vec::new();
        std::mem::swap(&mut entries, &mut self.entries);
        if let Some(i) = found {
            entries.remove(i);
        }
        let ghost kept = entries@;
        entries.push((key, value));
        let ghost after = entries@;
        proof {
            assert(!has_key(kept, k));
            assert(keys_distinct(after)) by {
                assert forall|a: int, b: int|
                    0 <= a < after.len() && 0 <= b < after.len() && a != b implies after[a].0@
                    != after[b].0@ by {
                    if a < kept.len() && b < kept.len() {
                        if let Some(i) = found {
                            let a0 = if a < i { a } else { a + 1 };
                            let b0 = if b < i { b } else { b + 1 };
                            assert(kept[a] == before[a0] && kept[b] == before[b0]);
                        }
                    }
                }
            }
            assert forall|x: Seq<char>| #[trigger] has_key(after, x) == (has_key(before, x) || x == k) by {
                if has_key(before, x) && x != k {
                    let j = choose|j: int| 0 <= j < before.len() && before[j].0@ == x;
                    if let Some(i) = found {
                        let j2 = if j < i { j } else { j - 1 };
                        assert(after[j2] == before[j]);
                    } else {
                        assert(after[j] == before[j]);
                    }
                }
                if has_key(after, x) && x != k {
                    let j = choose|j: int| 0 <= j < after.len() && after[j].0@ == x;
                    if let Some(i) = found {
                        let j0 = if j < i { j } else { j + 1 };
                        assert(after[j] == before[j0]);
                    } else {
                        assert(after[j] == before[j]);
                    }
                }
                if x == k {
                    assert(after[after.len() - 1].0@ == k);
                }
            }
            assert forall|x: Seq<char>| #[trigger] entries_map(after).contains_key(x) implies entries_map(
                after,
            )[x] == entries_map(before).insert(k, value)[x] by {
                let j = choose|j: int| 0 <= j < after.len() && after[j].0@ == x;
                lemma_entry_in_map(after, j);
                if x != k {
                    let j0 = if let Some(i) = found {
                        if j < i {
                            j
                        } else {
                            j + 1
                        }
                    } else {
                        j
                    };
                    assert(after[j] == before[j0]);
                    lemma_entry_in_map(before, j0);
                } else {
                    lemma_entry_in_map(after, after.len() - 1);
                }
            }
            assert(entries_map(after) =~= entries_map(before).insert(k, value));
        }
        self.entries = entries;
    }

    /// Removes `key` and hands back the value it held.
    pub fn remove(&mut self, key: &str) -> (r: Option<V>)
        ensures
            final(self)@ == old(self)@.remove(key@),
            r is Some <==> old(self)@.contains_key(key@),
            r matches Some(v) ==> old(self)@[key@] == v,
    {
        proof {
            use_type_invariant(&*self);
        }
        let ghost before = self.entries@;
        let ghost k = key@;
        match self.find(key) {
            None => {
                assert(entries_map(before) =~= entries_map(before).remove(k));
                None
            },
            Some(i) => {
                let mut entries: Vec<(String, V)> = Vec::new();
                std::mem::swap(&mut entries, &mut self.entries);
                let (_, v) = entries.remove(i);
                let ghost after = entries@;
                proof {
                    lemma_entry_in_map(before, i as int);
                    assert forall|a: int, b: int|
                        0 <= a < after.len() && 0 <= b < after.len() && a != b implies after[a].0@
                        != after[b].0@ by {
                        let a0 = if a < i { a } else { a + 1 };
                        let b0 = if b < i { b } else { b + 1 };
                        assert(after[a] == before[a0] && after[b] == before[b0]);
                    }
                    assert forall|x: Seq<char>| #[trigger] has_key(after, x) == (has_key(before, x) && x != k) by {
                        if has_key(before, x) && x != k {
                            let j = choose|j: int| 0 <= j < before.len() && before[j].0@ == x;
                            assert(j != i);
                            let j2 = if j < i { j } else { j - 1 };
                            assert(after[j2] == before[j]);
                        }
                        if has_key(after, x) {
                            let j = choose|j: int| 0 <= j < after.len() && after[j].0@ == x;
                            let j0 = if j < i { j } else { j + 1 };
                            assert(after[j] == before[j0]);
                        }
                    }
                    assert forall|x: Seq<char>| #[trigger] entries_map(after).contains_key(x) implies entries_map(
                        after,
                    )[x] == entries_map(before)[x] by {
                        let j = choose|j: int| 0 <= j < after.len() && after[j].0@ == x;
                        lemma_entry_in_map(after, j);
                        let j0 = if j < i { j } else { j + 1 };
                        assert(after[j] == before[j0]);
                        lemma_entry_in_map(before, j0);
                    }
                    assert(entries_map(after) =~= entries_map(before).remove(k));
                }
                self.entries = entries;
                Some(v)
            },
        }
    }
}

} // verus!
