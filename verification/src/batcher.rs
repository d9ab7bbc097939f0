//! The coalescing core: a bounded FIFO of pending submissions, the
//! backpressure branching, the dual flush trigger, the drain-and-classify
//! step and the shutdown flag.
//!
//! The core is a state machine driven by the runtime around it. Submitters
//! call [`BatcherCore::submit`]; the worker asks [`BatcherCore::worker_wait_decision`]
//! whether to exit, sleep or collect, asks [`BatcherCore::accumulate_decision`]
//! whether the current batch is due, and takes it with [`BatcherCore::drain`].
//! Every wait, lock and channel send is the runtime's to perform; the core
//! only decides, and each decision is pinned by its contract against the
//! abstract state [`BatcherView`].

use vstd::prelude::*;

use crate::errors::BatchError;
use crate::metrics::{counter_add, bump_counter, Metrics, MetricsSnapshot};
use crate::queue::{Backpressure, Pending};

verus! {

/// The abstract state of the core: what the contracts speak of.
#[verifier::ext_equal]
pub ghost struct BatcherView<T, E> {
    /// Size threshold: a batch never exceeds it, and reaching it makes the
    /// pending batch due at once.
    pub max_batch: usize,
    /// How long the worker may wait past the head submission's enqueue time
    /// before the pending batch is due.
    pub max_wait_ms: u64,
    /// What a submitter does when the queue is saturated.
    pub backpressure: Backpressure,
    /// Pending submissions, oldest first.
    pub queue: Seq<Pending<T, E>>,
    /// The monotonic counters.
    pub metrics: Metrics,
    /// Set once by `close`; the worker exits at its next wait boundary.
    pub stop: bool,
    /// Set by a manual flush that found submissions pending; cleared by the
    /// next drain. Makes the pending batch due ahead of its deadline.
    pub flush_requested: bool,
    /// The ticket the next enqueued submission will receive.
    pub next_ticket: u64,
}

impl<T, E> BatcherView<T, E> {
    /// Well-formedness: the threshold is positive, the queue never exceeds
    /// it, tickets grow strictly along the queue and stay below the next
    /// ticket, and enqueue times never decrease along the queue.
    pub open spec fn wf(self) -> bool {
        &&& self.max_batch >= 1
        &&& self.queue.len() <= self.max_batch
        &&& forall|i: int, j: int|
            0 <= i < j < self.queue.len() ==> self.queue[i].ticket < self.queue[j].ticket
        &&& forall|i: int| 0 <= i < self.queue.len() ==> #[trigger] self.queue[i].ticket < self.next_ticket
        &&& forall|i: int, j: int|
            0 <= i < j < self.queue.len() ==> self.queue[i].enqueued_at <= self.queue[j].enqueued_at
    }

    /// The state right after construction.
    pub open spec fn initial(max_batch: usize, max_wait_ms: u64, backpressure: Backpressure) -> Self {
        BatcherView {
            max_batch,
            max_wait_ms,
            backpressure,
            queue: Seq::empty(),
            metrics: Metrics::spec_zero(),
            stop: false,
            flush_requested: false,
            next_ticket: 0,
        }
    }

    /// The queue has no room for another submission.
    pub open spec fn saturated(self) -> bool {
        self.queue.len() >= self.max_batch
    }

    /// The record a submission enqueued at time `now` becomes.
    pub open spec fn record_for(self, item: T, executor: E, now: u64) -> Pending<T, E> {
        Pending { ticket: self.next_ticket, enqueued_at: now, item, executor }
    }

    /// The state after appending that record at the tail.
    pub open spec fn after_enqueue(self, item: T, executor: E, now: u64) -> Self {
        BatcherView {
            queue: self.queue.push(self.record_for(item, executor, now)),
            next_ticket: (self.next_ticket + 1) as u64,
            ..self
        }
    }

    /// How many records the next drain takes: the whole queue, capped at
    /// the size threshold.
    pub open spec fn drain_count(self) -> int {
        if self.queue.len() <= self.max_batch {
            self.queue.len() as int
        } else {
            self.max_batch as int
        }
    }

    /// The batch the next drain hands to the executor: the FIFO prefix.
    pub open spec fn drained_batch(self) -> Seq<Pending<T, E>> {
        self.queue.take(self.drain_count())
    }

    /// The counters after dispatching that batch: one batch more, its size
    /// added to the item total, and exactly one of the two classification
    /// counters stepped — the size trigger if the batch reached the
    /// threshold, the deadline trigger otherwise.
    pub open spec fn metrics_after_drain(self) -> Metrics {
        Metrics {
            total_batches: counter_add(self.metrics.total_batches, 1),
            total_items: counter_add(self.metrics.total_items, self.drain_count() as u64),
            flush_max_batch: if self.drain_count() >= self.max_batch {
                counter_add(self.metrics.flush_max_batch, 1)
            } else {
                self.metrics.flush_max_batch
            },
            flush_deadline: if self.drain_count() >= self.max_batch {
                self.metrics.flush_deadline
            } else {
                counter_add(self.metrics.flush_deadline, 1)
            },
            flush_manual: self.metrics.flush_manual,
        }
    }

    /// The state after the drain: the prefix is gone, the counters stepped,
    /// and any manual flush request consumed.
    pub open spec fn after_drain(self) -> Self {
        BatcherView {
            queue: self.queue.skip(self.drain_count()),
            metrics: self.metrics_after_drain(),
            flush_requested: false,
            ..self
        }
    }

    /// The latest moment the pending batch may keep waiting for more items.
    pub open spec fn head_deadline(self) -> int {
        self.queue[0].enqueued_at + self.max_wait_ms
    }

    /// Whether the pending batch is due at time `now`: it reached the size
    /// threshold, or its deadline passed, or a manual flush asked for it.
    pub open spec fn flush_due(self, now: u64) -> bool {
        ||| self.queue.len() >= self.max_batch
        ||| now >= self.head_deadline()
        ||| self.flush_requested
    }

    /// The state after a manual flush: the request counter steps, and the
    /// pending batch (if any) is marked due. An empty queue stays empty —
    /// the hint changes nothing else.
    pub open spec fn after_flush(self) -> Self {
        BatcherView {
            metrics: Metrics { flush_manual: counter_add(self.metrics.flush_manual, 1), ..self.metrics },
            flush_requested: self.flush_requested || self.queue.len() > 0,
            ..self
        }
    }

    /// The state after `close`: only the stop flag changes.
    pub open spec fn after_close(self) -> Self {
        BatcherView { stop: true, ..self }
    }
}

/// What a submitter is told to do.
pub enum SubmitDecision<T, E> {
    /// The submission was appended under this ticket; wait on the result
    /// channel registered for it.
    Enqueued(u64),
    /// The queue was saturated under the drop policy: fail with a
    /// queue-full error. The submission is discarded.
    Rejected,
    /// The queue was saturated under the passthrough policy: run the
    /// returned executor synchronously on a singleton batch of the returned
    /// item, bypassing the queue and the counters.
    Passthrough(T, E),
    /// The queue was saturated under the block policy: wait for capacity
    /// and submit the returned item and executor again.
    MustWait(T, E),
}

/// What the worker does at its outer wait: exit, sleep until woken, or
/// start collecting a batch.
#[derive(Clone, Copy, PartialEq, Eq, Structural, Debug)]
pub enum WorkerPhase {
    /// Shutdown was requested: leave the loop.
    Exit,
    /// Nothing is pending: wait to be woken.
    Sleep,
    /// Submissions are pending: move to accumulation.
    Collect,
}

/// What the worker does while a batch accumulates.
#[derive(Clone, Copy, PartialEq, Eq, Structural, Debug)]
pub enum AccumulateStep {
    /// The batch is due: drain and dispatch it.
    Dispatch,
    /// Wait this many milliseconds (or until woken), then decide again.
    Sleep(u64),
}

/// The worker's outer-wait decision on abstract state `v`.
pub open spec fn worker_wait_spec<T, E>(v: BatcherView<T, E>) -> WorkerPhase {
    if v.stop {
        WorkerPhase::Exit
    } else if v.queue.len() == 0 {
        WorkerPhase::Sleep
    } else {
        WorkerPhase::Collect
    }
}

/// The coalescing core. One worker drives it; any number of submitters
/// feed it. The runtime holds it under one lock and performs the waits its
/// decisions call for.
pub struct BatcherCore<T, E> {
    /// Size threshold and queue capacity.
    pub max_batch: usize,
    /// Deadline distance from the head submission's enqueue time.
    pub max_wait_ms: u64,
    /// Saturation policy.
    pub backpressure: Backpressure,
    /// Pending submissions, oldest first.
    pub queue: Vec<Pending<T, E>>,
    /// The monotonic counters.
    pub metrics: Metrics,
    /// Shutdown flag, set once by `close`.
    pub stop: bool,
    /// A manual flush found submissions pending and marked the batch due.
    pub flush_requested: bool,
    /// Ticket for the next enqueued submission.
    pub next_ticket: u64,
}

impl<T, E> View for BatcherCore<T, E> {
    type V = BatcherView<T, E>;

    open spec fn view(&self) -> BatcherView<T, E> {
        BatcherView {
            max_batch: self.max_batch,
            max_wait_ms: self.max_wait_ms,
            backpressure: self.backpressure,
            queue: self.queue@,
            metrics: self.metrics,
            stop: self.stop,
            flush_requested: self.flush_requested,
            next_ticket: self.next_ticket,
        }
    }
}

impl<T, E> BatcherCore<T, E> {
    /// Build a core with the given threshold, deadline distance and
    /// saturation policy name. Exactly `"block"`, `"drop"` and
    /// `"passthrough"` name policies; any other name is an invalid
    /// configuration and nothing is built.
    pub fn new(max_batch: usize, max_wait_ms: u64, backpressure: &str) -> (r: Result<
        BatcherCore<T, E>,
        BatchError,
    >)
        requires
            max_batch >= 1,
        ensures
            r is Err <==> invalid_policy_name(backpressure@),
            r is Err ==> r == Err::<BatcherCore<T, E>, BatchError>(BatchError::InvalidConfig),
            r matches Ok(c) ==> c@ == BatcherView::<T, E>::initial(
                max_batch,
                max_wait_ms,
                c@.backpressure,
            ),
            r matches Ok(c) ==> (c@.backpressure == Backpressure::Block <==> backpressure@
                == "block"@),
            r matches Ok(c) ==> (c@.backpressure == Backpressure::Drop <==> backpressure@
                == "drop"@),
            r matches Ok(c) ==> (c@.backpressure == Backpressure::Passthrough <==> backpressure@
                == "passthrough"@),
            r matches Ok(c) ==> c@.wf(),
    {
        let bp = match Backpressure::parse(backpressure) {
            Ok(bp) => bp,
            Err(e) => {
                return Err(e);
            },
        };
        let core = BatcherCore {
            max_batch,
            max_wait_ms,
            backpressure: bp,
            queue: Vec::new(),
            metrics: Metrics::new(),
            stop: false,
            flush_requested: false,
            next_ticket: 0,
        };
        proof {
            assert(core@ =~= BatcherView::<T, E>::initial(max_batch, max_wait_ms, bp));
        }
        Ok(core)
    }

    /// One submission attempt, at time `now` on the runtime's monotonic
    /// clock. With room in the queue the submission is appended under a
    /// fresh ticket; a saturated queue branches on the policy, leaving the
    /// state untouched.
    pub fn submit(&mut self, item: T, executor: E, now: u64) -> (d: SubmitDecision<T, E>)
        requires
            old(self)@.wf(),
            old(self)@.queue.len() > 0 ==> now >= old(self)@.queue.last().enqueued_at,
            old(self)@.next_ticket < u64::MAX,
        ensures
            final(self)@.wf(),
            !old(self)@.saturated() ==> (d matches SubmitDecision::Enqueued(t) && t == old(
                self,
            )@.next_ticket && final(self)@ == old(self)@.after_enqueue(item, executor, now)),
            old(self)@.saturated() ==> final(self)@ == old(self)@,
            old(self)@.saturated() && old(self)@.backpressure is Drop ==> d is Rejected,
            old(self)@.saturated() && old(self)@.backpressure is Passthrough ==> (
            d matches SubmitDecision::Passthrough(i, e) && i == item && e == executor),
            old(self)@.saturated() && old(self)@.backpressure is Block ==> (
            d matches SubmitDecision::MustWait(i, e) && i == item && e == executor),
    {
        if self.queue.len() >= self.max_batch {
            match self.backpressure {
                Backpressure::Drop => SubmitDecision::Rejected,
                Backpressure::Passthrough => SubmitDecision::Passthrough(item, executor),
                Backpressure::Block => SubmitDecision::MustWait(item, executor),
            }
        } else {
            let ticket = self.next_ticket;
            let record = Pending { ticket, enqueued_at: now, item, executor };
            self.queue.push(record);
            self.next_ticket = ticket + 1;
            proof {
                assert(self@ =~= old(self)@.after_enqueue(item, executor, now));
                assert forall|i: int, j: int|
                    0 <= i < j < self@.queue.len() implies self@.queue[i].ticket
                    < self@.queue[j].ticket by {
                    assert(old(self)@.queue[i] == self@.queue[i]);
                }
            }
            SubmitDecision::Enqueued(ticket)
        }
    }

    /// The worker's outer wait: exit once stopped, sleep while nothing is
    /// pending, otherwise start collecting.
    pub fn worker_wait_decision(&self) -> (d: WorkerPhase)
        ensures
            d == worker_wait_spec(self@),
    {
        if self.stop {
            WorkerPhase::Exit
        } else if self.queue.len() == 0 {
            WorkerPhase::Sleep
        } else {
            WorkerPhase::Collect
        }
    }

    /// While a batch accumulates: dispatch as soon as it is due, otherwise
    /// sleep exactly until its deadline. The prescribed sleep never runs
    /// past the deadline: `now + t` is the deadline itself.
    pub fn accumulate_decision(&self, now: u64) -> (d: AccumulateStep)
        requires
            self@.queue.len() > 0,
            now >= self@.queue[0].enqueued_at,
        ensures
            d is Dispatch <==> self@.flush_due(now),
            d matches AccumulateStep::Sleep(t) ==> t > 0 && now + t == self@.head_deadline(),
    {
        let elapsed = now - self.queue[0].enqueued_at;
        if self.queue.len() >= self.max_batch || self.flush_requested || elapsed >= self.max_wait_ms {
            AccumulateStep::Dispatch
        } else {
            AccumulateStep::Sleep(self.max_wait_ms - elapsed)
        }
    }

    /// Take the due batch: move the FIFO prefix (capped at the threshold)
    /// out, step the counters — one batch, its size, and exactly one of the
    /// two classification triggers — and consume any manual flush request.
    pub fn drain(&mut self) -> (batch: Vec<Pending<T, E>>)
        requires
            old(self)@.wf(),
            old(self)@.queue.len() > 0,
        ensures
            final(self)@.wf(),
            batch@ == old(self)@.drained_batch(),
            final(self)@ == old(self)@.after_drain(),
            1 <= batch@.len() <= old(self)@.max_batch,
    {
        let take = if self.queue.len() < self.max_batch {
            self.queue.len()
        } else {
            self.max_batch
        };
        let mut batch: Vec<Pending<T, E>> = Vec::new();
        let mut i: usize = 0;
        while i < take
            invariant
                i <= take,
                take == old(self)@.drain_count(),
                take <= old(self)@.queue.len(),
                batch@ =~= old(self)@.queue.take(i as int),
                self@.queue =~= old(self)@.queue.skip(i as int),
                self@.max_batch == old(self)@.max_batch,
                self@.max_wait_ms == old(self)@.max_wait_ms,
                self@.backpressure == old(self)@.backpressure,
                self@.metrics == old(self)@.metrics,
                self@.stop == old(self)@.stop,
                self@.flush_requested == old(self)@.flush_requested,
                self@.next_ticket == old(self)@.next_ticket,
            decreases take - i,
        {
            let record = self.queue.remove(0);
            batch.push(record);
            i = i + 1;
            proof {
                assert(batch@ =~= old(self)@.queue.take(i as int));
                assert(self@.queue =~= old(self)@.queue.skip(i as int));
            }
        }
        let size = batch.len();
        self.metrics.total_batches = bump_counter(self.metrics.total_batches, 1);
        self.metrics.total_items = bump_counter(self.metrics.total_items, size as u64);
        if size >= self.max_batch {
            self.metrics.flush_max_batch = bump_counter(self.metrics.flush_max_batch, 1);
        } else {
            self.metrics.flush_deadline = bump_counter(self.metrics.flush_deadline, 1);
        }
        self.flush_requested = false;
        proof {
            assert(self@ =~= old(self)@.after_drain());
            assert forall|i: int, j: int|
                0 <= i < j < self@.queue.len() implies self@.queue[i].ticket
                < self@.queue[j].ticket by {
                assert(self@.queue[i] == old(self)@.queue[i + old(self)@.drain_count()]);
            }
        }
        batch
    }

    /// A manual flush: count the request and, when submissions are pending,
    /// mark the batch due ahead of its deadline. The runtime then wakes the
    /// worker. Classification is untouched — a batch so dispatched still
    /// counts under the size or deadline trigger by its size alone.
    pub fn flush(&mut self)
        ensures
            final(self)@ == old(self)@.after_flush(),
    {
        self.metrics.flush_manual = bump_counter(self.metrics.flush_manual, 1);
        if self.queue.len() > 0 {
            self.flush_requested = true;
        }
        proof {
            assert(self@ =~= old(self)@.after_flush());
        }
    }

    /// A consistent copy of the five counters.
    pub fn metrics(&self) -> (s: MetricsSnapshot)
        ensures
            s.total_batches == self@.metrics.total_batches,
            s.total_items == self@.metrics.total_items,
            s.flush_max_batch == self@.metrics.flush_max_batch,
            s.flush_deadline == self@.metrics.flush_deadline,
            s.flush_manual == self@.metrics.flush_manual,
    {
        self.metrics.snapshot()
    }

    /// Request shutdown: set the stop flag and nothing else. The runtime
    /// wakes every waiter; the worker exits at its next outer wait.
    pub fn close(&mut self)
        ensures
            final(self)@ == old(self)@.after_close(),
            worker_wait_spec(final(self)@) is Exit,
    {
        self.stop = true;
        proof {
            assert(self@ =~= old(self)@.after_close());
        }
    }
}

/// Whether a policy name is none of the three the configuration accepts.
pub open spec fn invalid_policy_name(s: Seq<char>) -> bool {
    s != "block"@ && s != "drop"@ && s != "passthrough"@
}

} // verus!
