//! Sums over the values of a finite map.

use vstd::prelude::*;

verus! {

/// The sum of `f(v)` over the values `v` of a finite map.
pub open spec fn map_sum<K, V>(m: Map<K, V>, f: spec_fn(V) -> int) -> int
    decreases m.dom().len(),
    when m.dom().finite()
{
    if m.dom().len() == 0 {
        0
    } else {
        let k = m.dom().choose();
        proof {
            vstd::set_lib::lemma_set_empty_equivalency_len(m.dom());
        }
        f(m[k]) + map_sum(m.remove(k), f)
    }
}

/// Removing any key takes exactly its term out of the sum.
pub proof fn lemma_map_sum_remove<K, V>(m: Map<K, V>, f: spec_fn(V) -> int, k: K)
    requires
        m.dom().finite(),
        m.dom().contains(k),
    ensures
        map_sum(m, f) == f(m[k]) + map_sum(m.remove(k), f),
    decreases m.dom().len(),
{
    vstd::set_lib::lemma_set_empty_equivalency_len(m.dom());
    let c = m.dom().choose();
    if c != k {
        assert(m.remove(c).dom().contains(k));
        lemma_map_sum_remove(m.remove(c), f, k);
        assert(m.remove(k).dom().contains(c));
        lemma_map_sum_remove(m.remove(k), f, c);
        assert(m.remove(c).remove(k) =~= m.remove(k).remove(c));
    }
}

/// Inserting `k -> v` replaces the term of `k` (if any) by `f(v)`.
pub proof fn lemma_map_sum_insert<K, V>(m: Map<K, V>, f: spec_fn(V) -> int, k: K, v: V)
    requires
        m.dom().finite(),
    ensures
        map_sum(m.insert(k, v), f) == map_sum(m, f) + f(v) - if m.dom().contains(k) {
            f(m[k])
        } else {
            0
        },
{
    let m2 = m.insert(k, v);
    lemma_map_sum_remove(m2, f, k);
    if m.dom().contains(k) {
        lemma_map_sum_remove(m, f, k);
        assert(m2.remove(k) =~= m.remove(k));
    } else {
        assert(m2.remove(k) =~= m);
    }
}

/// A sum of non-negative terms bounds each of its terms.
pub proof fn lemma_map_sum_bounds_term<K, V>(m: Map<K, V>, f: spec_fn(V) -> int, k: K)
    requires
        m.dom().finite(),
        m.dom().contains(k),
        forall|v: V| #[trigger] f(v) >= 0,
    ensures
        f(m[k]) <= map_sum(m, f),
{
    lemma_map_sum_remove(m, f, k);
    lemma_map_sum_nonneg(m.remove(k), f);
}

/// A sum of non-negative terms is non-negative.
pub proof fn lemma_map_sum_nonneg<K, V>(m: Map<K, V>, f: spec_fn(V) -> int)
    requires
        m.dom().finite(),
        forall|v: V| #[trigger] f(v) >= 0,
    ensures
        map_sum(m, f) >= 0,
    decreases m.dom().len(),
{
    if m.dom().len() > 0 {
        vstd::set_lib::lemma_set_empty_equivalency_len(m.dom());
        let c = m.dom().choose();
        lemma_map_sum_nonneg(m.remove(c), f);
    }
}

/// The sum over an empty map is 0.
pub proof fn lemma_map_sum_empty<K, V>(f: spec_fn(V) -> int)
    ensures
        map_sum(Map::<K, V>::empty(), f) == 0,
{
    assert(Map::<K, V>::empty().dom() =~= Set::<K>::empty());
}

} // verus!
