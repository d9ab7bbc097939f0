//! Core of a dynamic request batcher.
//!
//! Callers submit individual items and wait for a per-item result, while a
//! single worker groups pending submissions into batches bounded by a size
//! threshold and a deadline, hands each batch to an executor, and routes the
//! executor's outputs back to the submitters positionally.
//!
//! This crate holds the verified decision core: the bounded FIFO of pending
//! submissions, the backpressure branching, the dual flush trigger, the
//! drain-and-classify step, the fan-out of batch results, and the shutdown
//! flag. The threaded runtime around it (locks, condition variables, result
//! channels, the host-language binding) feeds this core plain values — the
//! current time in milliseconds, the executor's outcome — and performs the
//! waits and sends that the core's decisions call for.

pub mod batcher;
pub mod errors;
pub mod laws;
pub mod messages;
pub mod metrics;
pub mod queue;
pub mod route;
