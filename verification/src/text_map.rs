//! A map keyed by text, held as a vector of entries with distinct keys.

use vstd::prelude::*;
use crate::text::{same_text, texts};

verus! {

/// A map from strings to values. No two entries share a key.
#[derive(Debug)]
pub struct TextMap<V> {
    entries: Vec<(String, V)>,
}

/// Whether entry `i` of `e` has key `k`.
pub open spec fn has_key_at<V>(e: Seq<(String, V)>, i: int, k: Seq<char>) -> bool {
    0 <= i < e.len() && e[i].0@ == k
}

/// The map that a list of entries with distinct keys stands for.
pub open spec fn entries_map<V>(e: Seq<(String, V)>) -> Map<Seq<char>, V> {
    Map::new(
        |k: Seq<char>| exists|i: int| has_key_at(e, i, k),
        |k: Seq<char>| e[choose|i: int| has_key_at(e, i, k)].1,
    )
}

/// No two entries share a key.
pub open spec fn keys_distinct<V>(e: Seq<(String, V)>) -> bool {
    forall|i: int, j: int|
        0 <= i < e.len() && 0 <= j < e.len() && i != j ==> #[trigger] e[i].0@ != #[trigger] e[j].0@
}

impl<V> View for TextMap<V> {
    type V = Map<Seq<char>, V>;

    closed spec fn view(&self) -> Map<Seq<char>, V> {
        entries_map(self.entries@)
    }
}

/// With distinct keys, the entry that holds a key is the one the map reads.
proof fn lemma_entry_value<V>(e: Seq<(String, V)>, i: int)
    requires
        keys_distinct(e),
        0 <= i < e.len(),
    ensures
        entries_map(e).contains_key(e[i].0@),
        entries_map(e)[e[i].0@] == e[i].1,
{
    let k = e[i].0@;
    assert(has_key_at(e, i, k));
    let j = choose|j: int| has_key_at(e, j, k);
    assert(j == i);
}

impl<V> TextMap<V> {
    #[verifier::type_invariant]
    spec fn distinct(self) -> bool {
        keys_distinct(self.entries@)
    }

    /// An empty map.
    pub fn new() -> (r: Self)
        ensures
            r@ == Map::<Seq<char>, V>::empty(),
    {
        let r = TextMap { entries: Vec::new() };
        assert(r@ =~= Map::<Seq<char>, V>::empty());
        r
    }

    /// The number of keys.
    pub fn len(&self) -> (r: usize)
        ensures
            r == self@.dom().len(),
    {
        proof {
            use_type_invariant(self);
            self.lemma_dom_len();
        }
        self.entries.len()
    }

    proof fn lemma_dom_len(&self)
        requires
            keys_distinct(self.entries@),
        ensures
            self@.dom().finite(),
            self@.dom().len() == self.entries@.len(),
    {
        let e = self.entries@;
        let ks = texts(e.map_values(|p: (String, V)| p.0));
        assert forall|i: int| 0 <= i < ks.len() implies #[trigger] ks[i] == e[i].0@ by {}
        assert(self@.dom() =~= ks.to_set()) by {
            assert forall|k: Seq<char>| self@.dom().contains(k) implies ks.to_set().contains(k) by {
                let i = choose|i: int| has_key_at(e, i, k);
                assert(ks[i] == k);
            }
            assert forall|k: Seq<char>| ks.to_set().contains(k) implies self@.dom().contains(k) by {
                let i = choose|i: int| 0 <= i < ks.len() && ks[i] == k;
                assert(has_key_at(e, i, k));
            }
        }
        assert(ks.no_duplicates()) by {
            assert forall|i: int, j: int|
                0 <= i < ks.len() && 0 <= j < ks.len() && i != j implies ks[i] != ks[j] by {
                assert(e[i].0@ != e[j].0@);
            }
        }
        ks.unique_seq_to_set();
    }

    /// Whether `key` is present.
    fn position(&self, key: &str) -> (r: Option<usize>)
        ensures
            r matches Some(i) ==> i < self.entries@.len() && self.entries@[i as int].0@ == key@,
            r is None ==> forall|i: int|
                0 <= i < self.entries@.len() ==> self.entries@[i].0@ != key@,
    {
        let mut i: usize = 0;
        while i < self.entries.len()
            invariant
                i <= self.entries@.len(),
                forall|j: int| 0 <= j < i ==> self.entries@[j].0@ != key@,
            decreases self.entries.len() - i,
        {
            if same_text(self.entries[i].0.as_str(), key) {
                return Some(i);
            }
            i = i + 1;
        }
        None
    }

    /// The value stored under `key`, if any.
    pub fn get(&self, key: &str) -> (r: Option<&V>)
        ensures
            r matches Some(v) ==> self@.contains_key(key@) && *v == self@[key@],
            r is None ==> !self@.contains_key(key@),
    {
        proof {
            use_type_invariant(self);
        }
        match self.position(key) {
            Some(i) => {
                proof {
                    lemma_entry_value(self.entries@, i as int);
                }
                Some(&self.entries[i].1)
            },
            None => {
                assert(!self@.contains_key(key@));
                None
            },
        }
    }

    /// Whether `key` is present.
    pub fn contains_key(&self, key: &str) -> (r: bool)
        ensures
            r == self@.contains_key(key@),
    {
        self.get(key).is_some()
    }

    /// Stores `value` under `key`, replacing any value stored there before.
    pub fn insert(&mut self, key: String, value: V)
        ensures
            final(self)@ == old(self)@.insert(key@, value),
    {
        proof {
            use_type_invariant(&*self);
        }
        let ghost k = key@;
        let ghost e0 = self.entries@;
        match self.position(key.as_str()) {
            Some(i) => {
                let mut entries = Vec::new();
                std::mem::swap(&mut entries, &mut self.entries);
                entries.set(i, (key, value));
                let ghost e1 = entries@;
                assert(keys_distinct(e1)) by {
                    assert forall|a: int, b: int|
                        0 <= a < e1.len() && 0 <= b < e1.len() && a != b implies #[trigger] e1[a].0@
                        != #[trigger] e1[b].0@ by {
                        assert(e0[a].0@ != e0[b].0@);
                    }
                }
                proof {
                    assert forall|x: Seq<char>|
                        entries_map(e1).contains_key(x) == entries_map(e0).insert(
                            k,
                            value,
                        ).contains_key(x) by {
                        if entries_map(e1).contains_key(x) {
                            let a = choose|a: int| has_key_at(e1, a, x);
                            if a != i {
                                assert(has_key_at(e0, a, x));
                            }
                        }
                        if x != k && entries_map(e0).contains_key(x) {
                            let a = choose|a: int| has_key_at(e0, a, x);
                            assert(has_key_at(e1, a, x));
                        }
                        if x == k {
                            assert(has_key_at(e1, i as int, x));
                        }
                    }
                    assert forall|x: Seq<char>| #[trigger]
                        entries_map(e1).contains_key(x) implies entries_map(e1)[x] == entries_map(
                        e0,
                    ).insert(k, value)[x] by {
                        let a = choose|a: int| has_key_at(e1, a, x);
                        lemma_entry_value(e1, a);
                        if x != k {
                            assert(has_key_at(e0, a, x));
                            lemma_entry_value(e0, a);
                        }
                    }
                    assert(entries_map(e1) =~= entries_map(e0).insert(k, value));
                }
                self.entries = entries;
            },
            None => {
                let mut entries = Vec::new();
                std::mem::swap(&mut entries, &mut self.entries);
                entries.push((key, value));
                let ghost e1 = entries@;
                assert(keys_distinct(e1)) by {
                    assert forall|a: int, b: int|
                        0 <= a < e1.len() && 0 <= b < e1.len() && a != b implies #[trigger] e1[a].0@
                        != #[trigger] e1[b].0@ by {
                        if a < e0.len() && b < e0.len() {
                            assert(e0[a].0@ != e0[b].0@);
                        }
                    }
                }
                proof {
                    assert forall|x: Seq<char>|
                        entries_map(e1).contains_key(x) == entries_map(e0).insert(
                            k,
                            value,
                        ).contains_key(x) by {
                        if entries_map(e1).contains_key(x) {
                            let a = choose|a: int| has_key_at(e1, a, x);
                            if a < e0.len() {
                                assert(has_key_at(e0, a, x));
                            }
                        }
                        if entries_map(e0).contains_key(x) {
                            let a = choose|a: int| has_key_at(e0, a, x);
                            assert(has_key_at(e1, a, x));
                        }
                        if x == k {
                            assert(has_key_at(e1, e0.len() as int, x));
                        }
                    }
                    assert forall|x: Seq<char>| #[trigger]
                        entries_map(e1).contains_key(x) implies entries_map(e1)[x] == entries_map(
                        e0,
                    ).insert(k, value)[x] by {
                        let a = choose|a: int| has_key_at(e1, a, x);
                        lemma_entry_value(e1, a);
                        if x != k {
                            assert(a < e0.len());
                            assert(has_key_at(e0, a, x));
                            lemma_entry_value(e0, a);
                        }
                    }
                    assert(entries_map(e1) =~= entries_map(e0).insert(k, value));
                }
                self.entries = entries;
            },
        }
    }

    /// The keys, each once, in the order they were first inserted.
    pub fn keys(&self) -> (r: Vec<String>)
        ensures
            texts(r@).to_set() == self@.dom(),
            texts(r@).no_duplicates(),
            r@.len() == self@.dom().len(),
    {
        proof {
            use_type_invariant(self);
            self.lemma_dom_len();
        }
        let mut r: Vec<String> = Vec::new();
        let mut i: usize = 0;
        while i < self.entries.len()
            invariant
                i <= self.entries@.len(),
                r@.len() == i,
                forall|j: int| 0 <= j < i ==> #[trigger] r@[j]@ == self.entries@[j].0@,
            decreases self.entries.len() - i,
        {
            r.push(self.entries[i].0.clone());
            i = i + 1;
        }
        let ghost e = self.entries@;
        let ghost ks = texts(r@);
        assert forall|j: int| 0 <= j < ks.len() implies #[trigger] ks[j] == e[j].0@ by {}
        assert(ks.to_set() =~= self@.dom()) by {
            assert forall|k: Seq<char>| self@.dom().contains(k) implies ks.to_set().contains(k) by {
                let j = choose|j: int| has_key_at(e, j, k);
                assert(ks[j] == k);
            }
            assert forall|k: Seq<char>| ks.to_set().contains(k) implies self@.dom().contains(k) by {
                let j = choose|j: int| 0 <= j < ks.len() && ks[j] == k;
                assert(has_key_at(e, j, k));
            }
        }
        assert(ks.no_duplicates()) by {
            assert forall|a: int, b: int|
                0 <= a < ks.len() && 0 <= b < ks.len() && a != b implies ks[a] != ks[b] by {
                assert(e[a].0@ != e[b].0@);
            }
        }
        r
    }
}

impl<V: Clone> Clone for TextMap<V> {
    /// A copy with the same keys, each value cloned.
    fn clone(&self) -> (r: Self)
        ensures
            r@.dom() == self@.dom(),
            forall|k: Seq<char>| #[trigger]
                r@.contains_key(k) ==> vstd::pervasive::cloned::<V>(self@[k], r@[k]),
    {
        proof {
            use_type_invariant(self);
        }
        let mut entries: Vec<(String, V)> = Vec::new();
        let mut i: usize = 0;
        while i < self.entries.len()
            invariant
                i <= self.entries@.len(),
                entries@.len() == i,
                keys_distinct(self.entries@),
                forall|j: int|
                    0 <= j < i ==> #[trigger] entries@[j].0@ == self.entries@[j].0@
                        && vstd::pervasive::cloned::<V>(self.entries@[j].1, entries@[j].1),
            decreases self.entries.len() - i,
        {
            let k = self.entries[i].0.clone();
            let v = self.entries[i].1.clone();
            entries.push((k, v));
            i = i + 1;
        }
        let ghost e0 = self.entries@;
        let ghost e1 = entries@;
        assert(keys_distinct(e1)) by {
            assert forall|a: int, b: int|
                0 <= a < e1.len() && 0 <= b < e1.len() && a != b implies #[trigger] e1[a].0@
                != #[trigger] e1[b].0@ by {
                assert(e0[a].0@ != e0[b].0@);
            }
        }
        let r = TextMap { entries };
        assert forall|k: Seq<char>| r@.dom().contains(k) == self@.dom().contains(k) by {
            if r@.dom().contains(k) {
                let a = choose|a: int| has_key_at(e1, a, k);
                assert(has_key_at(e0, a, k));
            }
            if self@.dom().contains(k) {
                let a = choose|a: int| has_key_at(e0, a, k);
                assert(has_key_at(e1, a, k));
            }
        }
        assert(r@.dom() =~= self@.dom());
        assert forall|k: Seq<char>| #[trigger]
            r@.contains_key(k) implies vstd::pervasive::cloned::<V>(self@[k], r@[k]) by {
            let a = choose|a: int| has_key_at(e1, a, k);
            lemma_entry_value(e1, a);
            assert(has_key_at(e0, a, k));
            lemma_entry_value(e0, a);
        }
        r
    }
}

} // verus!
