use vstd::prelude::*;
use crate::text::str_eq;

verus! {

/// A map from names to values that remembers the order in which the names
/// came in. No name occurs twice: a second insert under a name replaces the
/// value and keeps the place.
#[derive(Debug)]
pub struct StrMap<V> {
    entries: Vec<(String, V)>,
}

impl<V> StrMap<V> {
    #[verifier::type_invariant]
    pub closed spec fn wf(self) -> bool {
        forall|i: int, j: int|
            0 <= i < j < self.entries@.len() ==> (#[trigger] self.entries@[i]).0@ != (
            #[trigger] self.entries@[j]).0@
    }

    /// The names in the order of their first insert.
    pub closed spec fn spec_keys(&self) -> Seq<Seq<char>> {
        self.entries@.map_values(|e: (String, V)| e.0@)
    }

    /// The values in the order of their names.
    pub closed spec fn spec_values(&self) -> Seq<V> {
        self.entries@.map_values(|e: (String, V)| e.1)
    }

    /// The map itself.
    pub open spec fn view(&self) -> Map<Seq<char>, V> {
        Map::new(
            |k: Seq<char>| self.spec_keys().contains(k),
            |k: Seq<char>| self.spec_values()[self.spec_keys().index_of(k)],
        )
    }

    /// Names and values line up, and each name stands once.
    pub proof fn lemma_entries(self)
        requires
            self.wf(),
        ensures
            self.spec_keys().len() == self.spec_values().len(),
            self.spec_keys().no_duplicates(),
            forall|i: int|
                0 <= i < self.spec_keys().len() ==> self@.contains_key(#[trigger] self.spec_keys()[i])
                    && self@[self.spec_keys()[i]] == self.spec_values()[i],
            forall|k: Seq<char>|
                self@.contains_key(k) ==> 0 <= self.spec_keys().index_of(k) < self.spec_keys().len()
                    && self.spec_keys()[self.spec_keys().index_of(k)] == k,
    {
        let keys = self.spec_keys();
        assert forall|i: int, j: int| 0 <= i < keys.len() && 0 <= j < keys.len() && i != j implies keys[i]
            != keys[j] by {
            if i < j {
                assert(self.entries@[i].0@ != self.entries@[j].0@);
            } else {
                assert(self.entries@[j].0@ != self.entries@[i].0@);
            }
        }
        assert forall|i: int| 0 <= i < keys.len() implies self@.contains_key(#[trigger] keys[i]) && self@[keys[i]]
            == self.spec_values()[i] by {
            let k = keys[i];
            assert(keys.contains(k));
            let j = keys.index_of(k);
            assert(keys[j] == k);
            if j != i {
                assert(keys[i] != keys[j]);
            }
        }
        assert forall|k: Seq<char>| self@.contains_key(k) implies 0 <= keys.index_of(k) < keys.len()
            && keys[keys.index_of(k)] == k by {
            assert(keys.contains(k));
        }
    }

    pub fn new() -> (r: StrMap<V>)
        ensures
            r.wf(),
            r@ == Map::<Seq<char>, V>::empty(),
            r.spec_keys() == Seq::<Seq<char>>::empty(),
            r.spec_values() == Seq::<V>::empty(),
    {
        let r = StrMap { entries: Vec::new() };
        assert(r.spec_keys() =~= Seq::<Seq<char>>::empty());
        assert(r.spec_values() =~= Seq::<V>::empty());
        assert(r@ =~= Map::<Seq<char>, V>::empty());
        r
    }

    pub fn len(&self) -> (r: usize)
        ensures
            r == self.spec_keys().len(),
            r == self.spec_values().len(),
    {
        self.entries.len()
    }

    pub fn is_empty(&self) -> (r: bool)
        ensures
            r == (self.spec_keys().len() == 0),
    {
        self.entries.len() == 0
    }

    /// Position of `key` among the names.
    fn position(&self, key: &str) -> (r: Option<usize>)
        ensures
            match r {
                Some(i) => i < self.entries@.len() && self.entries@[i as int].0@ == key@,
                None => forall|j: int| 0 <= j < self.entries@.len() ==> self.entries@[j].0@ != key@,
            },
    {
        let n = self.entries.len();
        let mut i: usize = 0;
        while i < n
            invariant
                n == self.entries@.len(),
                i <= n,
                forall|j: int| 0 <= j < i ==> self.entries@[j].0@ != key@,
            decreases n - i,
        {
            if str_eq(self.entries[i].0.as_str(), key) {
                return Some(i);
            }
            i += 1;
        }
        None
    }

    pub fn contains_key(&self, key: &str) -> (r: bool)
        ensures
            r == self@.contains_key(key@),
    {
        match self.position(key) {
            Some(i) => {
                assert(self.spec_keys()[i as int] == key@);
                true
            },
            None => {
                assert(!self.spec_keys().contains(key@));
                false
            },
        }
    }

    pub fn get(&self, key: &str) -> (r: Option<&V>)
        ensures
            match r {
                Some(v) => self@.contains_key(key@) && *v == self@[key@],
                None => !self@.contains_key(key@),
            },
    {
        proof {
            use_type_invariant(self);
        }
        match self.position(key) {
            Some(i) => {
                proof {
                    assert(self.spec_keys()[i as int] == key@);
                    self.lemma_entries();
                }
                Some(&self.entries[i].1)
            },
            None => {
                assert(!self.spec_keys().contains(key@));
                None
            },
        }
    }

    /// Puts `value` under `key`. A name that is there keeps its place.
    pub fn insert(self, key: String, value: V) -> (r: StrMap<V>)
        ensures
            r.wf(),
            r@ == self@.insert(key@, value),
            self@.contains_key(key@) ==> r.spec_keys() == self.spec_keys() && r.spec_values()
                == self.spec_values().update(self.spec_keys().index_of(key@), value),
            !self@.contains_key(key@) ==> r.spec_keys() == self.spec_keys().push(key@) && r.spec_values()
                == self.spec_values().push(value),
    {
        proof {
            use_type_invariant(&self);
            self.lemma_entries();
        }
        let ghost before = self;
        let found = self.position(key.as_str());
        let mut entries = self.entries;
        match found {
            Some(i) => {
                assert(before.spec_keys()[i as int] == key@);
                entries.set(i, (key, value));
                let r = StrMap { entries };
                proof {
                    assert(r.spec_keys() =~= before.spec_keys());
                    assert(before.spec_keys().index_of(key@) == i);
                    assert(r.spec_values() =~= before.spec_values().update(i as int, value));
                    assert(r.wf()) by {
                        assert forall|a: int, b: int| 0 <= a < b < r.entries@.len() implies (
                        #[trigger] r.entries@[a]).0@ != (#[trigger] r.entries@[b]).0@ by {
                            assert(r.entries@[a].0@ == before.entries@[a].0@);
                            assert(r.entries@[b].0@ == before.entries@[b].0@);
                        }
                    }
                    r.lemma_entries();
                    assert(r@ =~= before@.insert(key@, value)) by {
                        assert forall|k: Seq<char>| r@.contains_key(k) implies #[trigger] r@[k]
                            == before@.insert(key@, value)[k] by {
                            let j = r.spec_keys().index_of(k);
                            if j != i {
                                assert(r.spec_values()[j] == before.spec_values()[j]);
                            }
                        }
                    }
                }
                r
            },
            None => {
                assert(!before.spec_keys().contains(key@));
                entries.push((key, value));
                let r = StrMap { entries };
                proof {
                    assert(r.spec_keys() =~= before.spec_keys().push(key@));
                    assert(r.spec_values() =~= before.spec_values().push(value));
                    assert(r.wf()) by {
                        assert forall|a: int, b: int| 0 <= a < b < r.entries@.len() implies (
                        #[trigger] r.entries@[a]).0@ != (#[trigger] r.entries@[b]).0@ by {
                            if b < before.entries@.len() {
                                assert(r.entries@[a].0@ == before.entries@[a].0@);
                                assert(r.entries@[b].0@ == before.entries@[b].0@);
                            } else {
                                assert(r.entries@[a].0@ == before.entries@[a].0@);
                            }
                        }
                    }
                    r.lemma_entries();
                    assert(r@ =~= before@.insert(key@, value)) by {
                        assert forall|k: Seq<char>| before@.insert(key@, value).contains_key(k) implies 
                            r@.contains_key(k) by {
                            if k == key@ {
                                assert(r.spec_keys()[before.spec_keys().len() as int] == k);
                            } else {
                                let j = before.spec_keys().index_of(k);
                                assert(r.spec_keys()[j] == k);
                            }
                        }
                        assert forall|k: Seq<char>| r@.contains_key(k) implies before@.insert(
                            key@,
                            value,
                        ).contains_key(k) && #[trigger] r@[k] == before@.insert(key@, value)[k] by {
                            let j = r.spec_keys().index_of(k);
                            if j < before.spec_keys().len() {
                                assert(before.spec_keys()[j] == k);
                                assert(r.spec_values()[j] == before.spec_values()[j]);
                            }
                        }
                    }
                }
                r
            },
        }
    }

    /// The name at place `i`.
    pub fn key_at(&self, i: usize) -> (r: &str)
        requires
            i < self.spec_keys().len(),
        ensures
            r@ == self.spec_keys()[i as int],
    {
        self.entries[i].0.as_str()
    }

    /// The value at place `i`.
    pub fn value_at(&self, i: usize) -> (r: &V)
        requires
            i < self.spec_values().len(),
        ensures
            *r == self.spec_values()[i as int],
    {
        &self.entries[i].1
    }
}

impl<V: Clone> Clone for StrMap<V> {
    /// A copy with the same names at the same places.
    fn clone(&self) -> (r: StrMap<V>)
        ensures
            r.wf(),
            r.spec_keys() == self.spec_keys(),
            r.spec_values().len() == self.spec_values().len(),
            forall|i: int|
                0 <= i < self.spec_values().len() ==> cloned::<V>(
                    #[trigger] self.spec_values()[i],
                    r.spec_values()[i],
                ),
    {
        proof {
            use_type_invariant(self);
        }
        let n = self.entries.len();
        let mut entries: Vec<(String, V)> = Vec::new();
        let mut i: usize = 0;
        while i < n
            invariant
                n == self.entries@.len(),
                i <= n,
                entries@.len() == i,
                forall|j: int| 0 <= j < i ==> (#[trigger] entries@[j]).0@ == self.entries@[j].0@,
                forall|j: int| 0 <= j < i ==> cloned::<V>(self.entries@[j].1, (#[trigger] entries@[j]).1),
            decreases n - i,
        {
            let key = self.entries[i].0.clone();
            let value = self.entries[i].1.clone();
            entries.push((key, value));
            i += 1;
        }
        assert forall|a: int, b: int| 0 <= a < b < entries@.len() implies (#[trigger] entries@[a]).0@ != (
        #[trigger] entries@[b]).0@ by {
            assert(self.entries@[a].0@ != self.entries@[b].0@);
        }
        let r = StrMap { entries };
        assert(r.spec_keys() =~= self.spec_keys());
        r
    }
}

} // verus!
