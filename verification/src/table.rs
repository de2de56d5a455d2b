use vstd::prelude::*;

use crate::account::TableKey;

verus! {

/// A finite map kept as a list of entries with pairwise distinct keys.
pub struct Table<K, V> {
    entries: Vec<(K, V)>,
}

impl<K, V> Table<K, V> {
    #[verifier::type_invariant]
    spec fn keys_distinct(self) -> bool {
        forall|i: int, j: int|
            0 <= i < j < self.entries.len() ==> #[trigger] self.entries@[i].0
                != #[trigger] self.entries@[j].0
    }

    spec fn has_key(self, k: K) -> bool {
        exists|i: int| 0 <= i < self.entries.len() && #[trigger] self.entries@[i].0 == k
    }

    spec fn slot_of(self, k: K) -> int {
        choose|i: int| 0 <= i < self.entries.len() && #[trigger] self.entries@[i].0 == k
    }

    /// The entries of the table as a map.
    pub closed spec fn view(&self) -> Map<K, V> {
        Map::new(|k: K| self.has_key(k), |k: K| self.entries@[self.slot_of(k)].1)
    }
}

impl<K: TableKey, V> Table<K, V> {
    /// An empty table.
    pub fn new() -> (t: Self)
        ensures
            t@ == Map::<K, V>::empty(),
    {
        let t = Table { entries: Vec::new() };
        assert(t@ =~= Map::<K, V>::empty());
        t
    }

    fn find(&self, k: &K) -> (r: Option<usize>)
        ensures
            match r {
                Some(i) => i < self.entries.len() && self.entries@[i as int].0 == *k,
                None => !self.has_key(*k),
            },
    {
        let mut i: usize = 0;
        while i < self.entries.len()
            invariant
                0 <= i <= self.entries.len(),
                forall|j: int| 0 <= j < i ==> self.entries@[j].0 != *k,
            decreases self.entries.len() - i,
        {
            if self.entries[i].0.key_eq(k) {
                return Some(i);
            }
            i = i + 1;
        }
        None
    }

    proof fn lemma_slot(&self, i: int)
        requires
            self.keys_distinct(),
            0 <= i < self.entries.len(),
        ensures
            self@.contains_key(self.entries@[i].0),
            self@[self.entries@[i].0] == self.entries@[i].1,
    {
        let k = self.entries@[i].0;
        assert(self.has_key(k));
        let s = self.slot_of(k);
        assert(s == i) by {
            if s < i {
                assert(self.entries@[s].0 != self.entries@[i].0);
            } else if s > i {
                assert(self.entries@[i].0 != self.entries@[s].0);
            }
        }
    }

    /// Whether the table holds the key.
    pub fn contains_key(&self, k: &K) -> (r: bool)
        ensures
            r == self@.contains_key(*k),
    {
        proof {
            use_type_invariant(self);
        }
        match self.find(k) {
            Some(i) => {
                proof {
                    self.lemma_slot(i as int);
                }
                true
            },
            None => false,
        }
    }

    /// The value stored under the key.
    pub fn get(&self, k: &K) -> (r: Option<&V>)
        ensures
            r is Some <==> self@.contains_key(*k),
            r matches Some(v) ==> *v == self@[*k],
    {
        proof {
            use_type_invariant(self);
        }
        match self.find(k) {
            Some(i) => {
                proof {
                    self.lemma_slot(i as int);
                }
                Some(&self.entries[i].1)
            },
            None => None,
        }
    }

    /// Stores the value under the key, replacing any earlier value.
    pub fn insert(&mut self, k: K, v: V)
        ensures
            final(self)@ == old(self)@.insert(k, v),
    {
        proof {
            use_type_invariant(&*self);
        }
        let found = self.find(&k);
        let mut es: Vec<(K, V)> = Vec::new();
        std::mem::swap(&mut es, &mut self.entries);
        let ghost old_es = es@;
        match found {
            Some(i) => {
                es.set(i, (k, v));
            },
            None => {
                es.push((k, v));
            },
        }
        assert forall|a: int, b: int| 0 <= a < b < es.len() implies #[trigger] es@[a].0
            != #[trigger] es@[b].0 by {
            if found is None && b == old_es.len() {
                assert(old_es[a].0 == es@[a].0);
            }
        }
        self.entries = es;
        proof {
            let ghost m = old(self)@.insert(k, v);
            assert forall|key: K| #[trigger] self@.contains_key(key) <==> m.contains_key(key) by {
                if key == k {
                    match found {
                        Some(i) => assert(self.entries@[i as int].0 == k),
                        None => assert(self.entries@[old_es.len() as int].0 == k),
                    }
                }
                if m.contains_key(key) && key != k {
                    assert(old(self).has_key(key));
                    let j = old(self).slot_of(key);
                    assert(self.entries@[j].0 == key);
                }
                if self.has_key(key) && key != k {
                    let j = self.slot_of(key);
                    assert(old(self).entries@[j].0 == key);
                }
            }
            assert forall|key: K| #[trigger] self@.contains_key(key) implies self@[key]
                == m[key] by {
                let j = self.slot_of(key);
                self.lemma_slot(j);
                if key != k {
                    assert(old(self).entries@[j].0 == key);
                    old(self).lemma_slot(j);
                }
            }
            assert(self@ =~= m);
        }
    }

    /// Removes the key, handing back the value that it held.
    pub fn remove(&mut self, k: &K) -> (r: Option<V>)
        ensures
            final(self)@ == old(self)@.remove(*k),
            r is Some <==> old(self)@.contains_key(*k),
            r matches Some(v) ==> v == old(self)@[*k],
    {
        proof {
            use_type_invariant(&*self);
        }
        match self.find(k) {
            None => {
                assert(self@ =~= old(self)@.remove(*k));
                None
            },
            Some(i) => {
                proof {
                    self.lemma_slot(i as int);
                }
                let mut es: Vec<(K, V)> = Vec::new();
                std::mem::swap(&mut es, &mut self.entries);
                let ghost old_es = es@;
                let (_, v) = es.remove(i);
                assert forall|a: int, b: int| 0 <= a < b < es.len() implies #[trigger] es@[a].0
                    != #[trigger] es@[b].0 by {
                    let oa = if a < i { a } else { a + 1 };
                    let ob = if b < i { b } else { b + 1 };
                    assert(es@[a] == old_es[oa]);
                    assert(es@[b] == old_es[ob]);
                }
                self.entries = es;
                proof {
                    let ghost m = old(self)@.remove(*k);
                    assert forall|key: K| #[trigger] self@.contains_key(key) <==> m.contains_key(
                        key,
                    ) by {
                        if m.contains_key(key) {
                            let j = old(self).slot_of(key);
                            assert(j != i);
                            let nj = if j < i { j } else { j - 1 };
                            assert(self.entries@[nj].0 == key);
                        }
                        if self.has_key(key) {
                            let j = self.slot_of(key);
                            let oj = if j < i { j } else { j + 1 };
                            assert(old(self).entries@[oj].0 == key);
                            assert(key != *k);
                        }
                    }
                    assert forall|key: K| #[trigger] self@.contains_key(key) implies self@[key]
                        == m[key] by {
                        let j = self.slot_of(key);
                        self.lemma_slot(j);
                        let oj = if j < i { j } else { j + 1 };
                        assert(old(self).entries@[oj] == self.entries@[j]);
                        old(self).lemma_slot(oj);
                    }
                    assert(self@ =~= m);
                }
                Some(v)
            },
        }
    }
}

} // verus!
