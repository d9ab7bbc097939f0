//! The batcher's guarantees, stated and proved over the abstract state.
//!
//! Each law here is a property of the decision core as a whole, beyond what
//! any single contract says in isolation: how enqueue order, drains,
//! counters and the shutdown flag relate across steps.

use vstd::prelude::*;

use crate::batcher::{worker_wait_spec, BatcherView, WorkerPhase};
use crate::metrics::counter_add;
use crate::route::{routes_outputs, Delivery};

verus! {

/// Ordering: the dispatched batch is the exact FIFO prefix. A submission's
/// index in its batch is its index in the queue, so of two submissions in
/// one batch the one enqueued first — the one with the smaller ticket —
/// stands at the smaller index.
pub proof fn law_fifo_batch_order<T, E>(v: BatcherView<T, E>)
    requires
        v.wf(),
    ensures
        forall|i: int| 0 <= i < v.drained_batch().len() ==> v.drained_batch()[i] == v.queue[i],
        forall|i: int, j: int|
            0 <= i < j < v.drained_batch().len() ==> v.drained_batch()[i].ticket
                < v.drained_batch()[j].ticket,
{
}

/// Ordering across submissions: an enqueue appends at the tail under the
/// next ticket, moves no earlier submission, and every earlier submission
/// carries a smaller ticket. Submissions that complete their enqueue in
/// order therefore stand in the queue — and in any common batch — in that
/// order.
pub proof fn law_enqueue_appends<T, E>(v: BatcherView<T, E>, item: T, executor: E, now: u64)
    requires
        v.wf(),
        !v.saturated(),
        v.queue.len() > 0 ==> now >= v.queue.last().enqueued_at,
        v.next_ticket < u64::MAX,
    ensures
        v.after_enqueue(item, executor, now).wf(),
        v.after_enqueue(item, executor, now).queue.len() == v.queue.len() + 1,
        v.after_enqueue(item, executor, now).queue.last() == v.record_for(item, executor, now),
        forall|i: int|
            0 <= i < v.queue.len() ==> v.after_enqueue(item, executor, now).queue[i] == v.queue[i],
        forall|i: int|
            0 <= i < v.queue.len() ==> #[trigger] v.queue[i].ticket < v.record_for(
                item,
                executor,
                now,
            ).ticket,
{
    let w = v.after_enqueue(item, executor, now);
    assert forall|i: int, j: int| 0 <= i < j < w.queue.len() implies w.queue[i].ticket
        < w.queue[j].ticket by {
        assert(w.queue[i] == v.queue[i]);
    }
    assert forall|i: int, j: int| 0 <= i < j < w.queue.len() implies w.queue[i].enqueued_at
        <= w.queue[j].enqueued_at by {
        assert(w.queue[i] == v.queue[i]);
        if j < v.queue.len() {
            assert(w.queue[j] == v.queue[j]);
        } else {
            assert(v.queue[i] == v.queue[v.queue.len() - 1] || v.queue[i].enqueued_at
                <= v.queue.last().enqueued_at);
        }
    }
}

/// Result correspondence: when the executor answers a batch with outputs of
/// matching length, the submitter at queue position `i` — ticket and all —
/// receives exactly the `i`-th output.
pub proof fn law_result_correspondence<T, E, R>(
    v: BatcherView<T, E>,
    ys: Seq<R>,
    ds: Seq<Delivery<R>>,
)
    requires
        v.wf(),
        routes_outputs(v.drained_batch(), ys, ds),
    ensures
        ds.len() == v.drained_batch().len(),
        forall|i: int|
            0 <= i < ds.len() ==> (#[trigger] ds[i]).ticket == v.queue[i].ticket && ds[i].outcome
                == Ok::<R, String>(ys[i]),
{
}

/// Conservation, one drain: no submission is lost or duplicated — the batch
/// and the remaining queue partition the old queue — and the item counter
/// grows by exactly the batch's size while the batch counter grows by one.
pub proof fn law_conservation_step<T, E>(v: BatcherView<T, E>)
    requires
        v.wf(),
        v.metrics.total_items + v.drained_batch().len() <= u64::MAX,
        v.metrics.total_batches < u64::MAX,
    ensures
        v.drained_batch() + v.after_drain().queue == v.queue,
        v.after_drain().metrics.total_items == v.metrics.total_items + v.drained_batch().len(),
        v.after_drain().metrics.total_batches == v.metrics.total_batches + 1,
{
    assert(v.drained_batch() + v.after_drain().queue =~= v.queue);
}

/// No submission is dispatched twice: every ticket in the drained batch is
/// strictly below every ticket still queued afterwards, so no later batch
/// can contain a record of an earlier one.
pub proof fn law_dispatch_once<T, E>(v: BatcherView<T, E>)
    requires
        v.wf(),
    ensures
        forall|i: int, j: int|
            0 <= i < v.drained_batch().len() && 0 <= j < v.after_drain().queue.len()
                ==> v.drained_batch()[i].ticket < v.after_drain().queue[j].ticket,
{
    assert forall|i: int, j: int|
        0 <= i < v.drained_batch().len() && 0 <= j
            < v.after_drain().queue.len() implies v.drained_batch()[i].ticket
        < v.after_drain().queue[j].ticket by {
        assert(v.drained_batch()[i] == v.queue[i]);
        assert(v.after_drain().queue[j] == v.queue[j + v.drain_count()]);
    }
}

/// The state after `n` consecutive drains.
pub open spec fn worker_rounds<T, E>(v: BatcherView<T, E>, n: nat) -> BatcherView<T, E>
    decreases n,
{
    if n == 0 {
        v
    } else {
        worker_rounds(v.after_drain(), (n - 1) as nat)
    }
}

/// The total size of the batches those `n` drains dispatch.
pub open spec fn dispatched_items<T, E>(v: BatcherView<T, E>, n: nat) -> int
    decreases n,
{
    if n == 0 {
        0
    } else {
        v.drained_batch().len() + dispatched_items(v.after_drain(), (n - 1) as nat)
    }
}

/// A drain preserves well-formedness.
pub proof fn law_drain_preserves_wf<T, E>(v: BatcherView<T, E>)
    requires
        v.wf(),
    ensures
        v.after_drain().wf(),
{
    let w = v.after_drain();
    assert forall|i: int, j: int| 0 <= i < j < w.queue.len() implies w.queue[i].ticket
        < w.queue[j].ticket by {
        assert(w.queue[i] == v.queue[i + v.drain_count()]);
        assert(w.queue[j] == v.queue[j + v.drain_count()]);
    }
    assert forall|i: int| 0 <= i < w.queue.len() implies #[trigger] w.queue[i].ticket
        < w.next_ticket by {
        assert(w.queue[i] == v.queue[i + v.drain_count()]);
    }
    assert forall|i: int, j: int| 0 <= i < j < w.queue.len() implies w.queue[i].enqueued_at
        <= w.queue[j].enqueued_at by {
        assert(w.queue[i] == v.queue[i + v.drain_count()]);
        assert(w.queue[j] == v.queue[j + v.drain_count()]);
    }
}

/// No drain dispatches a negative number of items.
proof fn lemma_dispatched_items_nonneg<T, E>(v: BatcherView<T, E>, n: nat)
    ensures
        dispatched_items(v, n) >= 0,
    decreases n,
{
    if n > 0 {
        lemma_dispatched_items_nonneg(v.after_drain(), (n - 1) as nat);
    }
}

/// Conservation: over any run of `n` drains, the item counter grows by
/// exactly the summed sizes of the dispatched batches — every submission
/// the worker takes is counted once, and nothing else is counted. (The
/// counters saturate at the top of their range; the hypothesis keeps the
/// run below it.)
pub proof fn law_conservation<T, E>(v: BatcherView<T, E>, n: nat)
    requires
        v.wf(),
        v.metrics.total_items + dispatched_items(v, n) <= u64::MAX,
    ensures
        worker_rounds(v, n).metrics.total_items == v.metrics.total_items + dispatched_items(v, n),
    decreases n,
{
    if n > 0 {
        let w = v.after_drain();
        lemma_dispatched_items_nonneg(w, (n - 1) as nat);
        law_drain_preserves_wf(v);
        assert(w.metrics.total_items == v.metrics.total_items + v.drained_batch().len());
        law_conservation(w, (n - 1) as nat);
    }
}

/// Batch size bounds: a batch drained from a non-empty queue has between 1
/// and `max_batch` records.
pub proof fn law_batch_size_bounds<T, E>(v: BatcherView<T, E>)
    requires
        v.wf(),
        v.queue.len() > 0,
    ensures
        1 <= v.drained_batch().len() <= v.max_batch,
{
}

/// Deadline bound: while the pending batch is not due, the head submission
/// has waited strictly less than `max_wait_ms` and the batch is strictly
/// below the size threshold. The worker therefore keeps waiting only within
/// the deadline, and its prescribed sleep ends exactly at the deadline
/// (see `accumulate_decision`): a dispatched batch either reached the size
/// threshold or was taken once — or before, on a manual flush — its head
/// had waited `max_wait_ms`.
pub proof fn law_deadline_bound<T, E>(v: BatcherView<T, E>, now: u64)
    requires
        v.wf(),
        v.queue.len() > 0,
        now >= v.queue[0].enqueued_at,
    ensures
        !v.flush_due(now) ==> now - v.queue[0].enqueued_at < v.max_wait_ms,
        !v.flush_due(now) ==> v.queue.len() < v.max_batch,
{
}

/// Classification exclusivity: a drain steps exactly one of the two
/// classification counters — the size trigger exactly when the batch
/// reached the threshold, the deadline trigger otherwise — and never the
/// manual counter.
pub proof fn law_classification_exclusive<T, E>(v: BatcherView<T, E>)
    requires
        v.wf(),
        v.metrics.flush_max_batch < u64::MAX,
        v.metrics.flush_deadline < u64::MAX,
    ensures
        v.drained_batch().len() >= v.max_batch ==> {
            &&& v.after_drain().metrics.flush_max_batch == v.metrics.flush_max_batch + 1
            &&& v.after_drain().metrics.flush_deadline == v.metrics.flush_deadline
        },
        v.drained_batch().len() < v.max_batch ==> {
            &&& v.after_drain().metrics.flush_max_batch == v.metrics.flush_max_batch
            &&& v.after_drain().metrics.flush_deadline == v.metrics.flush_deadline + 1
        },
        v.after_drain().metrics.flush_manual == v.metrics.flush_manual,
{
}

/// A manual flush with submissions pending makes the batch due at once,
/// counts the request, and changes nothing else; on an empty queue only the
/// counter moves.
pub proof fn law_flush_triggers_dispatch<T, E>(v: BatcherView<T, E>, now: u64)
    requires
        v.wf(),
        v.queue.len() > 0,
        now >= v.queue[0].enqueued_at,
    ensures
        v.after_flush().flush_due(now),
        v.after_flush().metrics.flush_manual == counter_add(v.metrics.flush_manual, 1),
        v.after_flush().queue == v.queue,
        v.after_flush().metrics.total_batches == v.metrics.total_batches,
        v.after_flush().metrics.total_items == v.metrics.total_items,
        v.after_flush().metrics.flush_max_batch == v.metrics.flush_max_batch,
        v.after_flush().metrics.flush_deadline == v.metrics.flush_deadline,
{
}

/// Shutdown releases the worker: after `close` the stop flag holds, the
/// worker's outer-wait decision is to exit — never to sleep — and the
/// state is otherwise untouched, whatever it was. (That every submitter
/// blocked on a result channel then receives the worker-stopped failure is
/// the runtime's part: dropping the channels at exit closes them, and
/// `submit_outcome` maps a closed channel to that failure.)
pub proof fn law_close_releases_worker<T, E>(v: BatcherView<T, E>)
    ensures
        v.after_close().stop,
        worker_wait_spec(v.after_close()) == WorkerPhase::Exit,
        v.after_close().queue == v.queue,
        v.after_close().metrics == v.metrics,
        v.after_close().flush_requested == v.flush_requested,
        v.after_close().next_ticket == v.next_ticket,
{
}

} // verus!
