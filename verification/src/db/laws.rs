//! What a read of the store gives back after a write.

use crate::db::{
    DbView, PendingEntryView, QueueEntryView, first_pending, other_pending_pr, pending_without_pr, queue_without_pr,
};
use vstd::prelude::*;

verus! {

/// The queue is first-in, first-out: after appending `e`, the front of the
/// queue is the old front, or `e` if the queue was empty, and what stays
/// behind the front is what stayed before, followed by `e`.
pub proof fn lemma_queue_fifo(d: DbView, e: QueueEntryView)
    ensures
        d.queue.push(e).len() > 0,
        d.queue.len() == 0 ==> d.queue.push(e)[0] == e && d.queue.push(e).drop_first() == d.queue,
        d.queue.len() > 0 ==> d.queue.push(e)[0] == d.queue[0]
            && d.queue.push(e).drop_first() == d.queue.drop_first().push(e),
{
    assert(d.queue.len() == 0 ==> d.queue.push(e).drop_first() =~= d.queue);
    assert(d.queue.len() > 0 ==> d.queue.push(e).drop_first() =~= d.queue.drop_first().push(e));
}

/// After recording `e` as pending, `e` is the one record of its pull
/// request, and stands last; the pending record of every other pull
/// request is what it was.
pub proof fn lemma_add_pending_then_peek(d: DbView, e: PendingEntryView, pr: Seq<char>)
    ensures
        d.add_pending(e).peek_pending_by_pr(e.pr) == Some(e),
        forall|i: int|
            0 <= i < d.add_pending(e).pending.len() && #[trigger] d.add_pending(e).pending[i].pr == e.pr ==> i
                == d.add_pending(e).pending.len() - 1,
        pr != e.pr ==> d.add_pending(e).peek_pending_by_pr(pr) == d.peek_pending_by_pr(pr),
{
    let s = d.pending;
    let f = pending_without_pr(s, e.pr);
    let s2 = d.add_pending(e).pending;
    assert(s2 == f.push(e));
    lemma_filter_drops_pr(s, e.pr);
    assert forall|i: int| 0 <= i < s2.len() && #[trigger] s2[i].pr == e.pr implies i == s2.len() - 1 by {
        if i < f.len() {
            assert(s2[i] == f[i]);
        }
    }
    assert forall|k: int| 0 <= k < f.len() implies s2[k].pr != e.pr by {
        assert(s2[k] == f[k]);
    }
    lemma_first_pending_is(s2, e.pr, f.len() as int);
    if pr != e.pr {
        lemma_push_first_of(f, e, pr);
        lemma_filter_keeps_first_of(s, e.pr, pr);
    }
}

/// Recording a pull request and then taking its record leaves no record of
/// it: the other pending records stay, in their order.
pub proof fn lemma_add_pending_then_take(d: DbView, e: PendingEntryView)
    ensures
        d.add_pending(e).take_pending_by_pr(e.pr).pending == pending_without_pr(d.pending, e.pr),
{
    let s = d.pending;
    let f = pending_without_pr(s, e.pr);
    let s2 = f.push(e);
    lemma_filter_drops_pr(s, e.pr);
    assert forall|k: int| 0 <= k < f.len() implies s2[k].pr != e.pr by {
        assert(s2[k] == f[k]);
    }
    lemma_first_pending_is(s2, e.pr, f.len() as int);
    assert(s2.remove(f.len() as int) =~= f);
}

/// After canceling pull request `pr`, the queue holds none of its entries,
/// keeps the others in their order, and a running entry of `pr` is marked
/// canceled.
pub proof fn lemma_cancel_by_pr_drops_entries(d: DbView, pr: Seq<char>)
    ensures
        forall|i: int| 0 <= i < d.cancel_by_pr(pr).queue.len() ==> #[trigger] d.cancel_by_pr(pr).queue[i].pr != pr,
        d.cancel_by_pr(pr).queue == queue_without_pr(d.queue, pr),
        d.running matches Some(r) && r.pr == pr ==> (d.cancel_by_pr(pr).running matches Some(r2) && r2.canceled),
        d.cancel_by_pr(pr).pending == d.pending,
        d.cancel_by_pr(pr).cis == d.cis,
{
    let q = d.cancel_by_pr(pr).queue;
    broadcast use vstd::seq_lib::group_filter_ensures;
    assert forall|i: int| 0 <= i < q.len() implies #[trigger] q[i].pr != pr by {
        assert(q.contains(q[i]));
    }
}

/// A recorded CI state reads back as written, and writing one CI job's
/// state leaves the others' unchanged.
pub proof fn lemma_ci_state_read_after_write(
    d: DbView,
    id: i32,
    state: crate::db::CiState,
    commit: Seq<char>,
    other: i32,
)
    ensures
        d.cis.insert(id, (state, commit)).contains_key(id),
        d.cis.insert(id, (state, commit))[id] == (state, commit),
        other != id ==> d.cis.insert(id, (state, commit)).contains_key(other) == d.cis.contains_key(other),
        other != id && d.cis.contains_key(other) ==> d.cis.insert(id, (state, commit))[other] == d.cis[other],
        !d.cis.remove(id).contains_key(id),
{
}

/// If some entry of `s` belongs to `pr`, then there is a first one.
proof fn lemma_least_match(s: Seq<PendingEntryView>, pr: Seq<char>, j: int)
    requires
        0 <= j < s.len(),
        s[j].pr == pr,
    ensures
        exists|i: int| 0 <= i < s.len() && s[i].pr == pr && forall|k: int| 0 <= k < i ==> s[k].pr != pr,
    decreases j,
{
    if exists|k: int| 0 <= k < j && s[k].pr == pr {
        let k = choose|k: int| 0 <= k < j && s[k].pr == pr;
        lemma_least_match(s, pr, k);
    } else {
        assert(forall|k: int| 0 <= k < j ==> s[k].pr != pr);
    }
}

/// `first_pending` picks the entry at `i` when it is the first of `pr`.
proof fn lemma_first_pending_is(s: Seq<PendingEntryView>, pr: Seq<char>, i: int)
    requires
        0 <= i < s.len(),
        s[i].pr == pr,
        forall|k: int| 0 <= k < i ==> s[k].pr != pr,
    ensures
        first_pending(s, pr) == Some(i),
{
    let c = choose|c: int| 0 <= c < s.len() && s[c].pr == pr && forall|k: int| 0 <= k < c ==> s[k].pr != pr;
    assert(0 <= c < s.len() && s[c].pr == pr && forall|k: int| 0 <= k < c ==> s[k].pr != pr);
    if c < i {
        assert(s[c].pr != pr);
    }
    if c > i {
        assert(s[i].pr != pr);
    }
}

/// The first entry of `pr` in `s`, characterised without `choose`.
proof fn lemma_first_pending_cases(s: Seq<PendingEntryView>, pr: Seq<char>)
    ensures
        first_pending(s, pr) matches Some(i) ==> (0 <= i < s.len() && s[i].pr == pr
            && forall|k: int| 0 <= k < i ==> s[k].pr != pr),
        first_pending(s, pr) is None ==> forall|k: int| 0 <= k < s.len() ==> s[k].pr != pr,
{
    if exists|j: int| 0 <= j < s.len() && s[j].pr == pr {
        let j = choose|j: int| 0 <= j < s.len() && s[j].pr == pr;
        lemma_least_match(s, pr, j);
    }
}

/// The pending record of `pr` in `s`: the first one.
pub open spec fn first_of(s: Seq<PendingEntryView>, pr: Seq<char>) -> Option<PendingEntryView> {
    match first_pending(s, pr) {
        Some(i) => Some(s[i]),
        None => None,
    }
}

/// No record of `pr` stays once its records are filtered out.
proof fn lemma_filter_drops_pr(s: Seq<PendingEntryView>, pr: Seq<char>)
    ensures
        forall|i: int| 0 <= i < pending_without_pr(s, pr).len() ==> #[trigger] pending_without_pr(s, pr)[i].pr != pr,
{
    broadcast use vstd::seq_lib::group_filter_ensures;
    let f = pending_without_pr(s, pr);
    assert forall|i: int| 0 <= i < f.len() implies #[trigger] f[i].pr != pr by {
        assert(f.contains(f[i]));
    }
}

/// Appending a record changes the record of `pr` only when there was none.
proof fn lemma_push_first_of(s: Seq<PendingEntryView>, x: PendingEntryView, pr: Seq<char>)
    ensures
        first_of(s.push(x), pr) == match first_of(s, pr) {
            Some(v) => Some(v),
            None => if x.pr == pr {
                Some(x)
            } else {
                None
            },
        },
{
    let s2 = s.push(x);
    lemma_first_pending_cases(s, pr);
    match first_pending(s, pr) {
        Some(k) => {
            assert forall|m: int| 0 <= m < k implies s2[m].pr != pr by {
                assert(s2[m] == s[m]);
            }
            lemma_first_pending_is(s2, pr, k);
        },
        None => {
            if x.pr == pr {
                assert forall|m: int| 0 <= m < s.len() implies s2[m].pr != pr by {
                    assert(s2[m] == s[m]);
                }
                lemma_first_pending_is(s2, pr, s.len() as int);
            } else {
                assert forall|m: int| 0 <= m < s2.len() implies s2[m].pr != pr by {
                    if m < s.len() {
                        assert(s2[m] == s[m]);
                    }
                }
                lemma_first_pending_cases(s2, pr);
            }
        },
    }
}

/// Filtering out the records of `q` leaves the record of another pull
/// request `pr` as it was.
proof fn lemma_filter_keeps_first_of(s: Seq<PendingEntryView>, q: Seq<char>, pr: Seq<char>)
    requires
        pr != q,
    ensures
        first_of(pending_without_pr(s, q), pr) == first_of(s, pr),
    decreases s.len(),
{
    if s.len() == 0 {
        assert(pending_without_pr(s, q) =~= s);
    } else {
        let t = s.drop_last();
        let x = s.last();
        assert(s == t.push(x));
        lemma_filter_keeps_first_of(t, q, pr);
        t.lemma_filter_push(x, other_pending_pr(q));
        lemma_push_first_of(t, x, pr);
        if x.pr != q {
            lemma_push_first_of(pending_without_pr(t, q), x, pr);
        } else {
            assert(pending_without_pr(s, q) == pending_without_pr(t, q));
        }
    }
}

} // verus!
