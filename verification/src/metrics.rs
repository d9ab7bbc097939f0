//! Monotonic counters describing the batcher's activity.
//!
//! The worker counts every dispatched batch, its size, and the trigger that
//! classified it; `flush_manual` counts how often a manual flush was
//! requested. Counters only grow; once one reaches the top of its range it
//! stays there rather than wrap.

use vstd::prelude::*;

verus! {

/// The value of a counter after `d` more events, saturating at the top of
/// the range so that a counter never wraps back below an earlier reading.
pub open spec fn counter_add(c: u64, d: u64) -> u64 {
    if c + d <= u64::MAX {
        (c + d) as u64
    } else {
        u64::MAX
    }
}

/// Saturating counter increment; the executable twin of [`counter_add`].
pub fn bump_counter(c: u64, d: u64) -> (r: u64)
    ensures
        r == counter_add(c, d),
{
    if c <= u64::MAX - d {
        c + d
    } else {
        u64::MAX
    }
}

/// The live counters, written by the worker (and, for `flush_manual`, by the
/// flush request path).
pub struct Metrics {
    /// Batches dispatched through the worker.
    pub total_batches: u64,
    /// Sum of the sizes of all dispatched batches.
    pub total_items: u64,
    /// Batches dispatched because they reached the size threshold.
    pub flush_max_batch: u64,
    /// Batches dispatched below the size threshold (deadline or manual hint).
    pub flush_deadline: u64,
    /// Manual flush requests received.
    pub flush_manual: u64,
}

/// A point-in-time copy of the five counters.
#[derive(Clone, Copy, PartialEq, Eq, Structural, Debug)]
pub struct MetricsSnapshot {
    pub total_batches: u64,
    pub total_items: u64,
    pub flush_max_batch: u64,
    pub flush_deadline: u64,
    pub flush_manual: u64,
}

impl Metrics {
    /// All counters at zero.
    pub open spec fn spec_zero() -> Metrics {
        Metrics {
            total_batches: 0,
            total_items: 0,
            flush_max_batch: 0,
            flush_deadline: 0,
            flush_manual: 0,
        }
    }

    /// Fresh counters, all zero.
    pub fn new() -> (m: Metrics)
        ensures
            m == Metrics::spec_zero(),
    {
        Metrics {
            total_batches: 0,
            total_items: 0,
            flush_max_batch: 0,
            flush_deadline: 0,
            flush_manual: 0,
        }
    }

    /// Copy every counter into a snapshot.
    pub fn snapshot(&self) -> (s: MetricsSnapshot)
        ensures
            s.total_batches == self.total_batches,
            s.total_items == self.total_items,
            s.flush_max_batch == self.flush_max_batch,
            s.flush_deadline == self.flush_deadline,
            s.flush_manual == self.flush_manual,
    {
        MetricsSnapshot {
            total_batches: self.total_batches,
            total_items: self.total_items,
            flush_max_batch: self.flush_max_batch,
            flush_deadline: self.flush_deadline,
            flush_manual: self.flush_manual,
        }
    }
}

impl Default for Metrics {
    /// All counters start at zero.
    fn default() -> (m: Metrics)
        ensures
            m == Metrics::spec_zero(),
    {
        Metrics::new()
    }
}

} // verus!
