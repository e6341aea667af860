//! A finite key/value table whose abstract value is a `Map`.
//!
//! Keys are small `Copy` identities compared by `TableKey::same`; entries are
//! kept in two parallel vectors with no duplicate key, so every operation is
//! an ordinary loop that Verus checks against the `Map` view.

use vstd::prelude::*;

verus! {

/// A key that can be compared for spec equality in executable code.
pub trait TableKey: Copy + Sized {
    fn same(&self, other: &Self) -> (r: bool)
        ensures
            r == (*self == *other),
    ;
}

impl TableKey for u32 {
    fn same(&self, other: &Self) -> (r: bool) {
        *self == *other
    }
}

/// Finite map from `K` to `V`.
pub struct Table<K, V> {
    keys: Vec<K>,
    vals: Vec<V>,
}

/// Position of `k` in `keys`, when `k` occurs there.
pub open spec fn position_of<K>(keys: Seq<K>, k: K) -> int {
    keys.index_of(k)
}

/// In a sequence without duplicates, an element's position is unique.
pub proof fn lemma_unique_position<K>(keys: Seq<K>, i: int)
    requires
        keys.no_duplicates(),
        0 <= i < keys.len(),
    ensures
        position_of(keys, keys[i]) == i,
{
    let j = keys.index_of(keys[i]);
    assert(0 <= j < keys.len() && keys[j] == keys[i]);
}

impl<K, V> Table<K, V> {
    /// Internal consistency: one value per key, no key twice.
    pub closed spec fn wf(&self) -> bool {
        &&& self.keys@.len() == self.vals@.len()
        &&& self.keys@.no_duplicates()
    }

    /// The table as a mathematical map.
    pub closed spec fn view(&self) -> Map<K, V> {
        Map::new(
            |k: K| self.keys@.contains(k),
            |k: K| self.vals@[position_of(self.keys@, k)],
        )
    }

    pub fn new() -> (t: Self)
        ensures
            t.wf(),
            t@ == Map::<K, V>::empty(),
    {
        let t = Table { keys: Vec::new(), vals: Vec::new() };
        assert(t@ =~= Map::<K, V>::empty());
        t
    }

    /// Number of entries.
    pub fn len(&self) -> (n: usize)
        requires
            self.wf(),
        ensures
            n == self@.dom().len(),
    {
        proof {
            self.lemma_dom_is_key_set();
            self.keys@.unique_seq_to_set();
        }
        self.keys.len()
    }

    proof fn lemma_dom_is_key_set(&self)
        ensures
            self@.dom() == self.keys@.to_set(),
    {
        assert(self@.dom() =~= self.keys@.to_set());
    }

    /// The table has finitely many keys.
    pub proof fn lemma_dom_finite(&self)
        requires
            self.wf(),
        ensures
            self@.dom().finite(),
    {
        self.lemma_dom_is_key_set();
        self.keys@.unique_seq_to_set();
    }
}

impl<K: TableKey, V> Table<K, V> {
    /// Index of `k` among the keys, if present.
    fn find(&self, k: &K) -> (r: Option<usize>)
        requires
            self.wf(),
        ensures
            match r {
                Some(i) => i < self.keys@.len() && self.keys@[i as int] == *k,
                None => !self.keys@.contains(*k),
            },
    {
        let mut i: usize = 0;
        while i < self.keys.len()
            invariant
                i <= self.keys@.len(),
                forall|j: int| 0 <= j < i ==> self.keys@[j] != *k,
            decreases self.keys@.len() - i,
        {
            if self.keys[i].same(k) {
                return Some(i);
            }
            i = i + 1;
        }
        None
    }

    pub fn contains_key(&self, k: &K) -> (b: bool)
        requires
            self.wf(),
        ensures
            b == self@.contains_key(*k),
    {
        self.find(k).is_some()
    }

    pub fn get(&self, k: &K) -> (r: Option<&V>)
        requires
            self.wf(),
        ensures
            match r {
                Some(v) => self@.contains_key(*k) && *v == self@[*k],
                None => !self@.contains_key(*k),
            },
    {
        match self.find(k) {
            Some(i) => {
                proof {
                    lemma_unique_position(self.keys@, i as int);
                }
                Some(&self.vals[i])
            },
            None => None,
        }
    }

    /// Inserts `k -> v`, replacing any previous value of `k`.
    pub fn insert(&mut self, k: K, v: V)
        requires
            old(self).wf(),
        ensures
            final(self).wf(),
            final(self)@ == old(self)@.insert(k, v),
    {
        let ghost old_keys = self.keys@;
        let ghost old_vals = self.vals@;
        match self.find(&k) {
            Some(i) => {
                self.vals.set(i, v);
                proof {
                    lemma_unique_position(old_keys, i as int);
                    assert forall|k2: K| old_keys.contains(k2) && k2 != k implies self.vals@[position_of(
                        old_keys,
                        k2,
                    )] == old_vals[position_of(old_keys, k2)] by {
                        let j = old_keys.index_of(k2);
                        assert(0 <= j < old_keys.len() && old_keys[j] == k2);
                    }
                    assert(self@ =~= old(self)@.insert(k, v));
                }
            },
            None => {
                self.keys.push(k);
                self.vals.push(v);
                proof {
                    let n = old_keys.len() as int;
                    assert forall|a: int, b: int|
                        0 <= a < self.keys@.len() && 0 <= b < self.keys@.len() && a != b
                            implies self.keys@[a] != self.keys@[b] by {
                        if a == n {
                            assert(old_keys.contains(self.keys@[b]) || b == n);
                        } else if b == n {
                            assert(old_keys.contains(self.keys@[a]));
                        }
                    }
                    lemma_unique_position(self.keys@, n);
                    assert forall|k2: K| old_keys.contains(k2) implies #[trigger] self.vals@[position_of(
                        self.keys@,
                        k2,
                    )] == old_vals[position_of(old_keys, k2)] by {
                        let j = old_keys.index_of(k2);
                        assert(0 <= j < old_keys.len() && old_keys[j] == k2);
                        assert(self.keys@[j] == k2);
                        lemma_unique_position(self.keys@, j);
                        lemma_unique_position(old_keys, j);
                    }
                    assert forall|k2: K| #[trigger] self.keys@.contains(k2) <==> (old_keys.contains(k2)
                        || k2 == k) by {
                        if self.keys@.contains(k2) && k2 != k {
                            let j = self.keys@.index_of(k2);
                            assert(j != n);
                            assert(old_keys[j] == k2);
                        }
                        if old_keys.contains(k2) {
                            let j = old_keys.index_of(k2);
                            assert(self.keys@[j] == k2);
                        }
                        if k2 == k {
                            assert(self.keys@[n] == k);
                        }
                    }
                    assert(self@ =~= old(self)@.insert(k, v));
                }
            },
        }
    }

    /// Removes `k`, returning its value if it was present.
    pub fn remove(&mut self, k: &K) -> (r: Option<V>)
        requires
            old(self).wf(),
        ensures
            final(self).wf(),
            final(self)@ == old(self)@.remove(*k),
            match r {
                Some(v) => old(self)@.contains_key(*k) && v == old(self)@[*k],
                None => !old(self)@.contains_key(*k),
            },
    {
        let ghost old_keys = self.keys@;
        let ghost old_vals = self.vals@;
        match self.find(k) {
            Some(i) => {
                proof {
                    lemma_unique_position(old_keys, i as int);
                }
                self.keys.remove(i);
                let v = self.vals.remove(i);
                proof {
                    let ii = i as int;
                    old_keys.remove_ensures(ii);
                    old_vals.remove_ensures(ii);
                    let nk = self.keys@;
                    assert forall|a: int, b: int|
                        0 <= a < nk.len() && 0 <= b < nk.len() && a != b implies nk[a] != nk[b] by {
                        let oa = if a < ii {
                            a
                        } else {
                            a + 1
                        };
                        let ob = if b < ii {
                            b
                        } else {
                            b + 1
                        };
                        assert(nk[a] == old_keys[oa]);
                        assert(nk[b] == old_keys[ob]);
                    }
                    assert forall|k2: K| #[trigger] nk.contains(k2) <==> (old_keys.contains(k2) && k2
                        != *k) by {
                        if nk.contains(k2) {
                            let j = nk.index_of(k2);
                            let oj = if j < ii {
                                j
                            } else {
                                j + 1
                            };
                            assert(old_keys[oj] == k2);
                            assert(oj != ii);
                        }
                        if old_keys.contains(k2) && k2 != *k {
                            let j = old_keys.index_of(k2);
                            assert(j != ii);
                            if j < ii {
                                assert(nk[j] == k2);
                            } else {
                                assert(nk[j - 1] == k2);
                            }
                        }
                    }
                    assert forall|k2: K| nk.contains(k2) implies #[trigger] self.vals@[position_of(
                        nk,
                        k2,
                    )] == old_vals[position_of(old_keys, k2)] by {
                        let j = nk.index_of(k2);
                        let oj = if j < ii {
                            j
                        } else {
                            j + 1
                        };
                        assert(old_keys[oj] == k2);
                        lemma_unique_position(old_keys, oj);
                    }
                    assert(self@ =~= old(self)@.remove(*k));
                }
                Some(v)
            },
            None => {
                proof {
                    assert(self@ =~= old(self)@.remove(*k));
                }
                None
            },
        }
    }
}

} // verus!
