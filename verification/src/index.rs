//! Append-only lists of invoice ids, one list per key (issuer, buyer, status).

use vstd::prelude::*;
use crate::ids::InvoiceId;
use crate::table::{Table, TableKey};

verus! {

/// The ids listed under `k`, or none.
pub open spec fn ids_at<K>(m: Map<K, Seq<InvoiceId>>, k: K) -> Seq<InvoiceId> {
    if m.contains_key(k) {
        m[k]
    } else {
        Seq::empty()
    }
}

/// `m` with `id` appended under `k`, unless it is already listed there.
pub open spec fn appended<K>(m: Map<K, Seq<InvoiceId>>, k: K, id: InvoiceId) -> Map<K, Seq<InvoiceId>> {
    if ids_at(m, k).contains(id) {
        m
    } else {
        m.insert(k, ids_at(m, k).push(id))
    }
}

/// Appending keeps every listed id listed, and lists `id` under `k`.
pub proof fn lemma_appended_keeps<K>(m: Map<K, Seq<InvoiceId>>, k: K, id: InvoiceId)
    ensures
        forall|c: K, x: InvoiceId| #[trigger]
            ids_at(m, c).contains(x) ==> ids_at(appended(m, k, id), c).contains(x),
        ids_at(appended(m, k, id), k).contains(id),
        forall|c: K, x: InvoiceId| #[trigger]
            ids_at(appended(m, k, id), c).contains(x) ==> ids_at(m, c).contains(x) || (c == k && x
                == id),
        forall|c: K| #[trigger]
            ids_at(m, c).no_duplicates() ==> ids_at(appended(m, k, id), c).no_duplicates(),
{
    if !ids_at(m, k).contains(id) {
        let s = ids_at(m, k);
        assert(s.push(id)[s.len() as int] == id);
        assert forall|c: K, x: InvoiceId| #[trigger]
            ids_at(appended(m, k, id), c).contains(x) implies ids_at(m, c).contains(x) || (c == k
                && x == id) by {
            if c == k && x != id {
                let j = s.push(id).index_of(x);
                assert(s[j] == x);
            }
        }
        assert forall|c: K| #[trigger]
            ids_at(m, c).no_duplicates() implies ids_at(appended(m, k, id), c).no_duplicates() by {
            if c == k {
                let t = s.push(id);
                assert forall|i: int, j: int| 0 <= i < t.len() && 0 <= j < t.len() && i != j implies t[i]
                    != t[j] by {
                    if i < s.len() && j < s.len() {
                    } else if i < s.len() {
                        assert(s.contains(t[i]));
                    } else {
                        assert(s.contains(t[j]));
                    }
                }
            }
        }
        assert forall|c: K, x: InvoiceId| #[trigger]
            ids_at(m, c).contains(x) implies ids_at(appended(m, k, id), c).contains(x) by {
            if c == k {
                let j = s.index_of(x);
                assert(s.push(id)[j] == x);
            }
        }
    }
}

/// Lists of invoice ids keyed by `K`.
pub struct IdIndex<K> {
    lists: Table<K, Vec<InvoiceId>>,
}

impl<K> IdIndex<K> {
    pub closed spec fn wf(&self) -> bool {
        self.lists.wf()
    }

    pub closed spec fn view(&self) -> Map<K, Seq<InvoiceId>> {
        self.lists@.map_values(|v: Vec<InvoiceId>| v@)
    }

    pub fn new() -> (r: Self)
        ensures
            r.wf(),
            r@ == Map::<K, Seq<InvoiceId>>::empty(),
    {
        let r = IdIndex { lists: Table::new() };
        assert(r@ =~= Map::<K, Seq<InvoiceId>>::empty());
        r
    }
}

impl<K: TableKey> IdIndex<K> {
    /// A copy of the ids listed under `k`.
    pub fn ids(&self, k: &K) -> (r: Vec<InvoiceId>)
        requires
            self.wf(),
        ensures
            r@ == ids_at(self@, *k),
    {
        let mut out: Vec<InvoiceId> = Vec::new();
        match self.lists.get(k) {
            Some(v) => {
                let mut i: usize = 0;
                while i < v.len()
                    invariant
                        i <= v@.len(),
                        out@ == v@.subrange(0, i as int),
                    decreases v@.len() - i,
                {
                    out.push(v[i]);
                    i = i + 1;
                    proof {
                        assert(v@.subrange(0, i as int) =~= v@.subrange(0, i - 1).push(v@[i - 1]));
                    }
                }
                assert(v@.subrange(0, v@.len() as int) =~= v@);
            },
            None => {},
        }
        out
    }

    /// Whether `id` is listed under `k`.
    pub fn has(&self, k: &K, id: &InvoiceId) -> (b: bool)
        requires
            self.wf(),
        ensures
            b == ids_at(self@, *k).contains(*id),
    {
        match self.lists.get(k) {
            Some(v) => {
                assert(ids_at(self@, *k) == v@);
                let mut i: usize = 0;
                while i < v.len()
                    invariant
                        i <= v@.len(),
                        ids_at(self@, *k) == v@,
                        forall|j: int| 0 <= j < i ==> v@[j] != *id,
                    decreases v@.len() - i,
                {
                    if v[i].same(id) {
                        assert(ids_at(self@, *k)[i as int] == *id);
                        return true;
                    }
                    i = i + 1;
                }
                false
            },
            None => false,
        }
    }

    /// Appends `id` under `k` unless it is already listed there.
    pub fn append_unique(&mut self, k: K, id: InvoiceId)
        requires
            old(self).wf(),
        ensures
            final(self).wf(),
            final(self)@ == appended(old(self)@, k, id),
    {
        if self.has(&k, &id) {
            return;
        }
        let ghost before = self.lists@;
        let mut v = match self.lists.remove(&k) {
            Some(v) => v,
            None => Vec::new(),
        };
        assert(v@ == ids_at(old(self)@, k));
        v.push(id);
        self.lists.insert(k, v);
        assert(self@ =~= appended(old(self)@, k, id));
    }
}

} // verus!
