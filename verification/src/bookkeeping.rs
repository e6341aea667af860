//! The status bookkeeping of the invoice book: the per-status counters that
//! `get_counts` reports and the per-status lists that `get_by_status` reads.
//!
//! The counters and lists are exact as long as every created invoice got an
//! id of its own. `create` stores under the digest of its inputs without
//! looking for an earlier invoice with that id, so the book records whether
//! every id so far was fresh (`fresh_ids`), and its invariant (`book_inv`)
//! holds the bookkeeping exact while that is so. The laws below are the
//! steps of that argument: the empty book, a creation under a fresh id, a
//! step along the lifecycle and an update that keeps the status.

use vstd::prelude::*;
use crate::ids::InvoiceId;
use crate::index::{ids_at, lemma_appended_keeps};
use crate::invoice::{
    Invoice,
    InvoiceBook,
    InvoiceStatus,
    book_inv,
    count_in,
    status_code,
    status_move_error,
    with_invoice,
    transitioned,
    after_create,
    lifecycle_edge,
    having_status,
    hydrate,
};

verus! {

/// Ids of the stored invoices whose current status has code `c`.
pub open spec fn in_status(invoices: Map<InvoiceId, Invoice>, c: u32) -> Set<InvoiceId> {
    invoices.dom().filter(|k: InvoiceId| status_code(invoices[k].status) == c)
}

/// Ids of the stored invoices whose status code is below `n`.
pub open spec fn in_status_below(invoices: Map<InvoiceId, Invoice>, n: nat) -> Set<InvoiceId> {
    invoices.dom().filter(|k: InvoiceId| status_code(invoices[k].status) < n)
}

/// Position of a status code along the lifecycle; the three final statuses
/// (`Repaid`, `Defaulted`, `Expired`) share the last position.
pub open spec fn stage(c: u32) -> int {
    if c <= 4 {
        c as int
    } else {
        5
    }
}

/// Number of invoices created so far, as the creation counter records it.
pub open spec fn created_so_far(counter: Option<u64>) -> nat {
    match counter {
        Some(n) => n as nat,
        None => 0,
    }
}

/// Sum of the counters of the status codes below `n`.
pub open spec fn counted_below(counts: Map<u32, u64>, n: nat) -> nat
    decreases n,
{
    if n == 0 {
        0
    } else {
        counted_below(counts, (n - 1) as nat) + count_in(counts, (n - 1) as u32) as nat
    }
}

/// Exact bookkeeping over the stored invoices, the status lists, the status
/// counters and the number of creations: one stored invoice per creation,
/// each counter equal to the number of invoices in its status, and an id
/// listed under a status only if that is its status or one it has left.
#[verifier::opaque]
pub open spec fn books_exact(
    invoices: Map<InvoiceId, Invoice>,
    by_status: Map<u32, Seq<InvoiceId>>,
    counts: Map<u32, u64>,
    created: nat,
) -> bool {
    &&& invoices.dom().finite()
    &&& invoices.dom().len() == created
    &&& forall|c: u32| #[trigger] count_in(counts, c) == in_status(invoices, c).len()
    &&& forall|c: u32, id: InvoiceId| #[trigger]
        ids_at(by_status, c).contains(id) ==> c == status_code(invoices[id].status) || stage(c)
            < stage(status_code(invoices[id].status))
}

/// The status bookkeeping of a book is exact.
pub open spec fn status_books(b: InvoiceBook) -> bool {
    books_exact(b.invoices, b.by_status, b.counts, created_so_far(b.counter))
}

/// Every edge of the lifecycle moves to a later stage.
pub proof fn lemma_edge_advances(from: InvoiceStatus, to: InvoiceStatus)
    requires
        lifecycle_edge(from, to),
    ensures
        stage(status_code(from)) < stage(status_code(to)),
        status_code(from) != status_code(to),
{
}

/// A freshly initialized book (nothing stored, counter unset or at zero)
/// has exact bookkeeping.
pub proof fn law_books_start(b: InvoiceBook)
    requires
        b.invoices == Map::<InvoiceId, Invoice>::empty(),
        b.by_status == Map::<u32, Seq<InvoiceId>>::empty(),
        b.counts == Map::<u32, u64>::empty(),
        b.counter is None || b.counter == Some(0u64),
    ensures
        status_books(b),
{
    reveal(books_exact);
    assert(b.invoices.dom() =~= Set::<InvoiceId>::empty());
    assert forall|c: u32| #[trigger] count_in(b.counts, c) == in_status(b.invoices, c).len() by {
        assert(in_status(b.invoices, c) =~= Set::<InvoiceId>::empty());
    }
}

/// Creating an invoice under a fresh id keeps the bookkeeping exact, and the
/// `Created` counter cannot overflow while the creation counter does not.
pub proof fn law_books_after_create(b: InvoiceBook, id: InvoiceId, inv: Invoice)
    requires
        book_inv(b),
        status_books(b),
        !b.invoices.contains_key(id),
        b.counter is Some,
        b.counter.unwrap() < u64::MAX,
        inv.status == InvoiceStatus::Created,
    ensures
        count_in(b.counts, 0) < u64::MAX,
        status_books(after_create(b, id, inv)),
{
    reveal(books_exact);
    let a = after_create(b, id, inv);
    b.invoices.dom().lemma_len_filter(|k: InvoiceId| status_code(b.invoices[k].status) == 0u32);
    assert(count_in(b.counts, 0) == in_status(b.invoices, 0).len());
    assert(a.invoices.dom() =~= b.invoices.dom().insert(id));
    assert forall|c: u32| #[trigger] count_in(a.counts, c) == in_status(a.invoices, c).len() by {
        b.invoices.dom().lemma_len_filter(|k: InvoiceId| status_code(b.invoices[k].status) == c);
        assert(count_in(b.counts, c) == in_status(b.invoices, c).len());
        if c == 0 {
            assert(in_status(a.invoices, c) =~= in_status(b.invoices, c).insert(id));
        } else {
            assert(in_status(a.invoices, c) =~= in_status(b.invoices, c));
        }
    }
    lemma_appended_keeps(b.by_status, 0u32, id);
    assert forall|c: u32, x: InvoiceId| #[trigger]
        ids_at(a.by_status, c).contains(x) implies c == status_code(a.invoices[x].status) || stage(c)
        < stage(status_code(a.invoices[x].status)) by {
        if ids_at(b.by_status, c).contains(x) {
            assert(b.invoices.contains_key(x));
            assert(x != id);
        }
    }
}

/// Every step along an edge of the lifecycle passes the bookkeeping check
/// (it never fails as an invalid transition or an overflow) and keeps the
/// bookkeeping exact.
pub proof fn law_books_after_step(
    b: InvoiceBook,
    id: InvoiceId,
    inv: Invoice,
    from: InvoiceStatus,
    to: InvoiceStatus,
)
    requires
        book_inv(b),
        status_books(b),
        b.invoices.contains_key(id),
        b.invoices[id].status == from,
        inv.status == to,
        lifecycle_edge(from, to),
    ensures
        status_move_error(b, id, from, to) is None,
        status_books(transitioned(b, id, inv, from, to)),
{
    reveal(books_exact);
    lemma_edge_advances(from, to);
    let cf = status_code(from);
    let ct = status_code(to);
    let dom = b.invoices.dom();
    assert(!ids_at(b.by_status, ct).contains(id));
    dom.lemma_len_filter(|k: InvoiceId| status_code(b.invoices[k].status) == cf);
    dom.lemma_len_filter(|k: InvoiceId| status_code(b.invoices[k].status) == ct);
    assert(in_status(b.invoices, cf).contains(id));
    assert(in_status(b.invoices, cf).remove(id).len() == in_status(b.invoices, cf).len() - 1);
    assert(count_in(b.counts, cf) > 0);
    assert(in_status(b.invoices, ct).subset_of(dom.remove(id)));
    vstd::set_lib::lemma_len_subset(in_status(b.invoices, ct), dom.remove(id));
    assert(count_in(b.counts, ct) < u64::MAX);
    let t = transitioned(b, id, inv, from, to);
    assert(t.invoices.dom() =~= dom);
    assert forall|c: u32| #[trigger] count_in(t.counts, c) == in_status(t.invoices, c).len() by {
        dom.lemma_len_filter(|k: InvoiceId| status_code(b.invoices[k].status) == c);
        assert(count_in(b.counts, c) == in_status(b.invoices, c).len());
        if c == cf {
            assert(in_status(t.invoices, c) =~= in_status(b.invoices, c).remove(id));
        } else if c == ct {
            assert(!in_status(b.invoices, c).contains(id));
            assert(in_status(t.invoices, c) =~= in_status(b.invoices, c).insert(id));
        } else {
            assert(in_status(t.invoices, c) =~= in_status(b.invoices, c));
        }
    }
    lemma_appended_keeps(b.by_status, ct, id);
    assert forall|c: u32, x: InvoiceId| #[trigger]
        ids_at(t.by_status, c).contains(x) implies c == status_code(t.invoices[x].status) || stage(c)
        < stage(status_code(t.invoices[x].status)) by {
        if ids_at(b.by_status, c).contains(x) {
            assert(b.invoices.contains_key(x));
        }
    }
}

/// In a book whose created ids were all fresh, a step along an edge of the
/// lifecycle never fails the bookkeeping check: the invoice is not listed
/// under its new status yet, its old status counts it, and the counter of
/// the new status has room.
pub proof fn law_fresh_books_pass_the_status_check(b: InvoiceBook, id: InvoiceId, to: InvoiceStatus)
    requires
        book_inv(b),
        b.fresh_ids,
        b.invoices.contains_key(id),
        lifecycle_edge(b.invoices[id].status, to),
    ensures
        status_move_error(b, id, b.invoices[id].status, to) is None,
{
    let from = b.invoices[id].status;
    law_books_after_step(b, id, Invoice { status: to, ..b.invoices[id] }, from, to);
}

/// Two creations after which the ids are still fresh stored two separate
/// invoices: the ids differ and the first invoice is kept unchanged.
pub proof fn law_fresh_creations_are_distinct(
    b: InvoiceBook,
    id1: InvoiceId,
    inv1: Invoice,
    id2: InvoiceId,
    inv2: Invoice,
)
    requires
        after_create(after_create(b, id1, inv1), id2, inv2).fresh_ids,
    ensures
        id1 != id2,
        after_create(after_create(b, id1, inv1), id2, inv2).invoices[id1] == inv1,
        after_create(after_create(b, id1, inv1), id2, inv2).invoices[id2] == inv2,
{
}

/// Changing an invoice without changing its status keeps the bookkeeping
/// exact.
pub proof fn law_books_after_update(b: InvoiceBook, id: InvoiceId, inv: Invoice)
    requires
        status_books(b),
        b.invoices.contains_key(id),
        inv.status == b.invoices[id].status,
    ensures
        status_books(with_invoice(b, id, inv)),
{
    reveal(books_exact);
    let w = with_invoice(b, id, inv);
    assert(w.invoices.dom() =~= b.invoices.dom());
    assert forall|c: u32| #[trigger] count_in(w.counts, c) == in_status(w.invoices, c).len() by {
        assert(in_status(w.invoices, c) =~= in_status(b.invoices, c));
    }
    assert forall|c: u32, x: InvoiceId| #[trigger]
        ids_at(w.by_status, c).contains(x) implies c == status_code(w.invoices[x].status) || stage(c)
        < stage(status_code(w.invoices[x].status)) by {
        assert(ids_at(b.by_status, c).contains(x));
    }
}

/// Splitting the invoices below status code `n` by their code.
proof fn lemma_counted_below(b: InvoiceBook, n: nat)
    requires
        status_books(b),
        n <= 8,
    ensures
        in_status_below(b.invoices, n).finite(),
        counted_below(b.counts, n) == in_status_below(b.invoices, n).len(),
    decreases n,
{
    reveal(books_exact);
    let dom = b.invoices.dom();
    dom.lemma_len_filter(|k: InvoiceId| status_code(b.invoices[k].status) < n);
    if n == 0 {
        assert(in_status_below(b.invoices, n) =~= Set::<InvoiceId>::empty());
    } else {
        let m = (n - 1) as nat;
        lemma_counted_below(b, m);
        let c = m as u32;
        dom.lemma_len_filter(|k: InvoiceId| status_code(b.invoices[k].status) == c);
        assert(count_in(b.counts, c) == in_status(b.invoices, c).len());
        assert(in_status_below(b.invoices, m).disjoint(in_status(b.invoices, c)));
        assert(in_status_below(b.invoices, n) =~= in_status_below(b.invoices, m) + in_status(b.invoices, c));
        vstd::set_lib::lemma_set_disjoint_lens(in_status_below(b.invoices, m), in_status(b.invoices, c));
    }
}

/// `get_counts` is exact: each counter is the number of stored invoices in
/// its status, and the counters add up to the number of invoices created.
pub proof fn law_counts_are_exact(b: InvoiceBook)
    requires
        status_books(b),
    ensures
        forall|c: u32| c < 8 ==> #[trigger] count_in(b.counts, c) == in_status(b.invoices, c).len(),
        counted_below(b.counts, 8) == created_so_far(b.counter),
{
    reveal(books_exact);
    lemma_counted_below(b, 8);
    assert(in_status_below(b.invoices, 8) =~= b.invoices.dom());
}

/// What `having_status` keeps: invoices of `s` with status `st`, in order,
/// and no repeat where `s` has none.
proof fn lemma_having_status_sound(s: Seq<Invoice>, st: InvoiceStatus)
    ensures
        forall|i: int| 0 <= i < having_status(s, st).len() ==> (#[trigger] having_status(s, st)[i]).status
            == st && s.contains(having_status(s, st)[i]),
        s.no_duplicates() ==> having_status(s, st).no_duplicates(),
    decreases s.len(),
{
    if s.len() > 0 {
        let p = s.drop_last();
        lemma_having_status_sound(p, st);
        let hp = having_status(p, st);
        assert forall|i: int| 0 <= i < hp.len() implies s.contains(#[trigger] hp[i]) by {
            let j = p.index_of(hp[i]);
            assert(s[j] == hp[i]);
        }
        assert(s[s.len() - 1] == s.last());
        if s.no_duplicates() {
            assert(p.no_duplicates());
            assert(!p.contains(s.last())) by {
                if p.contains(s.last()) {
                    let j = p.index_of(s.last());
                    assert(s[j] == s[s.len() - 1]);
                }
            }
            if s.last().status == st {
                let h = hp.push(s.last());
                assert forall|i: int, j: int| 0 <= i < h.len() && 0 <= j < h.len() && i != j implies h[i]
                    != h[j] by {
                    if i < hp.len() && j < hp.len() {
                    } else if i < hp.len() {
                        assert(p.contains(hp[i]));
                    } else {
                        assert(p.contains(hp[j]));
                    }
                }
            }
        }
    }
}

/// `get_by_status` reports each invoice at most once, and only stored
/// invoices that are in the requested status.
pub proof fn law_get_by_status_lists_each_once(b: InvoiceBook, st: InvoiceStatus)
    requires
        book_inv(b),
    ensures
        having_status(hydrate(b, ids_at(b.by_status, status_code(st))), st).no_duplicates(),
        forall|i: int|
            0 <= i < having_status(hydrate(b, ids_at(b.by_status, status_code(st))), st).len() ==> {
                let r = #[trigger] having_status(hydrate(b, ids_at(b.by_status, status_code(st))), st)[i];
                &&& r.status == st
                &&& b.invoices.contains_key(r.id)
                &&& b.invoices[r.id] == r
            },
{
    let ids = ids_at(b.by_status, status_code(st));
    let h = hydrate(b, ids);
    assert(ids.no_duplicates());
    assert forall|i: int| 0 <= i < h.len() implies b.invoices.contains_key(ids[i]) && (#[trigger] h[i]).id
        == ids[i] && b.invoices[h[i].id] == h[i] by {
        assert(ids.contains(ids[i]));
    }
    assert forall|i: int, j: int| 0 <= i < h.len() && 0 <= j < h.len() && i != j implies h[i] != h[j] by {
        assert(ids.contains(ids[i]));
        assert(ids.contains(ids[j]));
        assert(h[i].id == ids[i]);
        assert(h[j].id == ids[j]);
    }
    lemma_having_status_sound(h, st);
    let r = having_status(h, st);
    assert forall|i: int| 0 <= i < r.len() implies b.invoices.contains_key((#[trigger] r[i]).id)
        && b.invoices[r[i].id] == r[i] by {
        let j = h.index_of(r[i]);
        assert(h[j] == r[i]);
    }
}

} // verus!
