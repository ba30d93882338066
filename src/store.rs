use vstd::prelude::*;

verus! {

/// A map from string keys to values, kept as a vector of pairs whose keys
/// are pairwise distinct.
pub struct KeyedStore<V> {
    entries: Vec<(String, V)>,
}

impl<V> KeyedStore<V> {
    pub closed spec fn has_key_at(&self, k: Seq<char>, i: int) -> bool {
        0 <= i < self.entries@.len() && self.entries@[i].0@ == k
    }

    /// Keys are pairwise distinct.
    pub closed spec fn wf(&self) -> bool {
        forall|i: int, j: int|
            0 <= i < self.entries@.len() && 0 <= j < self.entries@.len() && #[trigger] self.entries@[i].0@
                == #[trigger] self.entries@[j].0@ ==> i == j
    }

    /// What the store maps each key to.
    pub closed spec fn view(&self) -> Map<Seq<char>, V> {
        Map::new(
            |k: Seq<char>| exists|i: int| self.has_key_at(k, i),
            |k: Seq<char>| self.entries@[choose|i: int| self.has_key_at(k, i)].1,
        )
    }

    proof fn lemma_at(&self, i: int)
        requires
            self.wf(),
            0 <= i < self.entries@.len(),
        ensures
            self@.contains_key(self.entries@[i].0@),
            self@[self.entries@[i].0@] == self.entries@[i].1,
    {
        let k = self.entries@[i].0@;
        assert(self.has_key_at(k, i));
        let j = choose|j: int| self.has_key_at(k, j);
        assert(self.entries@[j].0@ == self.entries@[i].0@);
    }

    pub fn new() -> (r: Self)
        ensures
            r.wf(),
            r@ == Map::<Seq<char>, V>::empty(),
    {
        let r = KeyedStore { entries: Vec::new() };
        assert(r@ =~= Map::<Seq<char>, V>::empty());
        r
    }

    /// Position of `key`, if present.
    fn find(&self, key: &String) -> (r: Option<usize>)
        requires
            self.wf(),
        ensures
            match r {
                Some(i) => self.has_key_at(key@, i as int),
                None => !self@.contains_key(key@),
            },
    {
        let mut i: usize = 0;
        while i < self.entries.len()
            invariant
                i <= self.entries@.len(),
                forall|j: int| 0 <= j < i ==> self.entries@[j].0@ != key@,
            decreases self.entries@.len() - i,
        {
            if self.entries[i].0 == *key {
                return Some(i);
            }
            i = i + 1;
        }
        None
    }

    pub fn get(&self, key: &String) -> (r: Option<&V>)
        requires
            self.wf(),
        ensures
            match r {
                Some(v) => self@.contains_key(key@) && *v == self@[key@],
                None => !self@.contains_key(key@),
            },
    {
        match self.find(key) {
            Some(i) => {
                proof {
                    self.lemma_at(i as int);
                }
                Some(&self.entries[i].1)
            },
            None => None,
        }
    }

    pub fn contains(&self, key: &String) -> (r: bool)
        requires
            self.wf(),
        ensures
            r == self@.contains_key(key@),
    {
        match self.find(key) {
            Some(i) => {
                proof {
                    self.lemma_at(i as int);
                }
                true
            },
            None => false,
        }
    }

    pub fn len(&self) -> (r: usize)
        requires
            self.wf(),
        ensures
            r == self@.len(),
    {
        proof {
            self.lemma_len();
        }
        self.entries.len()
    }

    proof fn lemma_len(&self)
        requires
            self.wf(),
        ensures
            self@.dom().finite(),
            self@.len() == self.entries@.len(),
    {
        let keys = self.entries@.map_values(|e: (String, V)| e.0@);
        assert(keys.no_duplicates()) by {
            assert forall|i: int, j: int|
                0 <= i < keys.len() && 0 <= j < keys.len() && i != j implies keys[i] != keys[j] by {
                assert(self.entries@[i].0@ == keys[i]);
                assert(self.entries@[j].0@ == keys[j]);
            }
        }
        assert(self@.dom() =~= keys.to_set()) by {
            assert forall|k: Seq<char>| self@.dom().contains(k) implies keys.to_set().contains(k) by {
                let i = choose|i: int| self.has_key_at(k, i);
                assert(keys[i] == k);
            }
            assert forall|k: Seq<char>| keys.to_set().contains(k) implies self@.dom().contains(k) by {
                let i = choose|i: int| 0 <= i < keys.len() && keys[i] == k;
                assert(self.has_key_at(k, i));
            }
        }
        keys.unique_seq_to_set();
    }

    /// Every key, in the order of the entries.
    pub fn keys(&self) -> (r: Vec<String>)
        requires
            self.wf(),
        ensures
            r@.len() == self@.len(),
            forall|i: int| 0 <= i < r@.len() ==> self@.contains_key(#[trigger] r@[i]@),
            forall|k: Seq<char>| self@.contains_key(k) ==> exists|i: int| 0 <= i < r@.len() && r@[i]@ == k,
            forall|i: int, j: int| 0 <= i < j < r@.len() ==> r@[i]@ != r@[j]@,
    {
        proof {
            self.lemma_len();
        }
        let mut r: Vec<String> = Vec::new();
        let mut i: usize = 0;
        while i < self.entries.len()
            invariant
                self.wf(),
                i <= self.entries@.len(),
                r@.len() == i,
                forall|j: int| 0 <= j < i ==> #[trigger] r@[j]@ == self.entries@[j].0@,
            decreases self.entries@.len() - i,
        {
            r.push(self.entries[i].0.clone());
            i = i + 1;
        }
        assert forall|j: int| 0 <= j < r@.len() implies self@.contains_key(#[trigger] r@[j]@) by {
            self.lemma_at(j);
        }
        assert forall|k: Seq<char>| self@.contains_key(k) implies exists|j: int|
            0 <= j < r@.len() && r@[j]@ == k by {
            let j = choose|j: int| self.has_key_at(k, j);
            assert(r@[j]@ == k);
        }
        r
    }

    pub fn insert(&mut self, key: String, value: V)
        requires
            old(self).wf(),
        ensures
            final(self).wf(),
            final(self)@ == old(self)@.insert(key@, value),
    {
        let ghost k = key@;
        match self.find(&key) {
            Some(i) => {
                self.entries.set(i, (key, value));
                proof {
                    assert forall|a: int, b: int|
                        0 <= a < self.entries@.len() && 0 <= b < self.entries@.len()
                            && #[trigger] self.entries@[a].0@ == #[trigger] self.entries@[b].0@
                        implies a == b by {
                        if a != i && b != i {
                            assert(old(self).entries@[a] == self.entries@[a]);
                            assert(old(self).entries@[b] == self.entries@[b]);
                        } else if a == i && b != i {
                            assert(old(self).entries@[b] == self.entries@[b]);
                            assert(old(self).entries@[i as int].0@ == k);
                        } else if b == i && a != i {
                            assert(old(self).entries@[a] == self.entries@[a]);
                            assert(old(self).entries@[i as int].0@ == k);
                        }
                    }
                    self.lemma_update(old(self), k, value, i as int);
                }
            },
            None => {
                self.entries.push((key, value));
                proof {
                    let n = old(self).entries@.len() as int;
                    assert forall|a: int, b: int|
                        0 <= a < self.entries@.len() && 0 <= b < self.entries@.len()
                            && #[trigger] self.entries@[a].0@ == #[trigger] self.entries@[b].0@
                        implies a == b by {
                        if a < n && b < n {
                            assert(old(self).entries@[a] == self.entries@[a]);
                            assert(old(self).entries@[b] == self.entries@[b]);
                        } else if a < n {
                            assert(old(self).entries@[a] == self.entries@[a]);
                            assert(old(self).has_key_at(k, a));
                        } else if b < n {
                            assert(old(self).entries@[b] == self.entries@[b]);
                            assert(old(self).has_key_at(k, b));
                        }
                    }
                    self.lemma_update(old(self), k, value, n);
                }
            },
        }
    }

    /// After writing `(k, v)` at position `i` (in place, or appended), the
    /// view is the old one with `k` mapped to `v`.
    proof fn lemma_update(&self, prev: &Self, k: Seq<char>, v: V, i: int)
        requires
            self.wf(),
            prev.wf(),
            0 <= i < self.entries@.len(),
            self.entries@[i].0@ == k,
            self.entries@[i].1 == v,
            self.entries@.len() == prev.entries@.len() || (self.entries@.len() == prev.entries@.len() + 1
                && i == prev.entries@.len()),
            forall|j: int| 0 <= j < prev.entries@.len() && j != i ==> self.entries@[j] == prev.entries@[j],
            i < prev.entries@.len() ==> prev.entries@[i].0@ == k,
        ensures
            self@ == prev@.insert(k, v),
    {
        assert forall|key: Seq<char>| #[trigger] self@.contains_key(key) == prev@.insert(k, v).contains_key(key) by {
            if key == k {
                assert(self.has_key_at(k, i));
            } else {
                if self@.contains_key(key) {
                    let j = choose|j: int| self.has_key_at(key, j);
                    assert(prev.has_key_at(key, j));
                }
                if prev@.contains_key(key) {
                    let j = choose|j: int| prev.has_key_at(key, j);
                    assert(self.has_key_at(key, j));
                }
            }
        }
        assert forall|key: Seq<char>| #[trigger] self@.contains_key(key) implies self@[key] == prev@.insert(k, v)[key] by {
            if key == k {
                self.lemma_at(i);
            } else {
                let j = choose|j: int| self.has_key_at(key, j);
                self.lemma_at(j);
                prev.lemma_at(j);
            }
        }
        assert(self@ =~= prev@.insert(k, v));
    }

    pub fn remove(&mut self, key: &String)
        requires
            old(self).wf(),
        ensures
            final(self).wf(),
            final(self)@ == old(self)@.remove(key@),
    {
        match self.find(key) {
            Some(i) => {
                self.entries.remove(i);
                proof {
                    let p = old(self);
                    let ii = i as int;
                    assert forall|j: int| 0 <= j < self.entries@.len() implies #[trigger] self.entries@[j]
                        == p.entries@[if j < ii { j } else { j + 1 }] by {}
                    assert forall|a: int, b: int|
                        0 <= a < self.entries@.len() && 0 <= b < self.entries@.len()
                            && #[trigger] self.entries@[a].0@ == #[trigger] self.entries@[b].0@
                        implies a == b by {
                        let pa = if a < ii { a } else { a + 1 };
                        let pb = if b < ii { b } else { b + 1 };
                        assert(self.entries@[a] == p.entries@[pa]);
                        assert(self.entries@[b] == p.entries@[pb]);
                    }
                    assert forall|k: Seq<char>| #[trigger] self@.contains_key(k) == p@.remove(key@).contains_key(k) by {
                        if self@.contains_key(k) {
                            let j = choose|j: int| self.has_key_at(k, j);
                            let pj = if j < ii { j } else { j + 1 };
                            assert(self.entries@[j] == p.entries@[pj]);
                            assert(p.has_key_at(k, pj));
                            assert(k != key@);
                        }
                        if p@.remove(key@).contains_key(k) {
                            let j = choose|j: int| p.has_key_at(k, j);
                            assert(j != ii);
                            let sj = if j < ii { j } else { j - 1 };
                            assert(self.entries@[sj] == p.entries@[j]);
                            assert(self.has_key_at(k, sj));
                        }
                    }
                    assert forall|k: Seq<char>| #[trigger] self@.contains_key(k) implies self@[k] == p@.remove(key@)[k] by {
                        let j = choose|j: int| self.has_key_at(k, j);
                        let pj = if j < ii { j } else { j + 1 };
                        assert(self.entries@[j] == p.entries@[pj]);
                        self.lemma_at(j);
                        p.lemma_at(pj);
                    }
                    assert(self@ =~= p@.remove(key@));
                }
            },
            None => {
                assert(self@ =~= old(self)@.remove(key@));
            },
        }
    }

    pub fn clear(&mut self)
        ensures
            final(self).wf(),
            final(self)@ == Map::<Seq<char>, V>::empty(),
    {
        self.entries = Vec::new();
        assert(self@ =~= Map::<Seq<char>, V>::empty());
    }
}

} // verus!
