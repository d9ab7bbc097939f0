//! End-to-end scenarios driving the decision core the way the runtime does:
//! submit, ask the worker's decisions, drain, route, and read the counters.

use dynbatcher::batcher::{AccumulateStep, BatcherCore, SubmitDecision, WorkerPhase};
use dynbatcher::route::{passthrough_result, route_results, ExecutorOutcome};

#[test]
fn size_triggered_flush() {
    let mut core = BatcherCore::<i64, u8>::new(4, 1000, "block").unwrap();
    let mut tickets = Vec::new();
    for (i, item) in [1i64, 2, 3, 4].iter().enumerate() {
        match core.submit(*item, 0u8, i as u64) {
            SubmitDecision::Enqueued(t) => tickets.push(t),
            _ => panic!("submission should enqueue"),
        }
    }
    assert!(matches!(core.worker_wait_decision(), WorkerPhase::Collect));
    assert!(matches!(core.accumulate_decision(10), AccumulateStep::Dispatch));
    let batch = core.drain();
    assert_eq!(batch.len(), 4);
    let outputs: Vec<i64> = batch.iter().map(|p| p.item * 10).collect();
    let deliveries = route_results(&batch, ExecutorOutcome::Output(outputs));
    let expected = [10i64, 20, 30, 40];
    for (i, d) in deliveries.iter().enumerate() {
        assert_eq!(d.ticket, tickets[i]);
        assert_eq!(d.outcome, Ok(expected[i]));
    }
    let m = core.metrics();
    assert_eq!(m.total_batches, 1);
    assert_eq!(m.total_items, 4);
    assert_eq!(m.flush_max_batch, 1);
    assert_eq!(m.flush_deadline, 0);
    assert_eq!(m.flush_manual, 0);
}

#[test]
fn deadline_triggered_flush() {
    let mut core = BatcherCore::<String, u8>::new(8, 50, "block").unwrap();
    assert!(matches!(
        core.submit("a".to_string(), 0u8, 0),
        SubmitDecision::Enqueued(_)
    ));
    assert!(matches!(
        core.submit("b".to_string(), 0u8, 0),
        SubmitDecision::Enqueued(_)
    ));
    // Before the deadline the worker is told to sleep exactly until it.
    match core.accumulate_decision(0) {
        AccumulateStep::Sleep(t) => assert_eq!(t, 50),
        AccumulateStep::Dispatch => panic!("batch is not due yet"),
    }
    // At the deadline the batch is due.
    assert!(matches!(core.accumulate_decision(50), AccumulateStep::Dispatch));
    let batch = core.drain();
    assert_eq!(batch.len(), 2);
    let outputs: Vec<String> = batch.iter().map(|p| p.item.to_uppercase()).collect();
    let deliveries = route_results(&batch, ExecutorOutcome::Output(outputs));
    assert_eq!(deliveries[0].outcome, Ok("A".to_string()));
    assert_eq!(deliveries[1].outcome, Ok("B".to_string()));
    let m = core.metrics();
    assert_eq!(m.total_batches, 1);
    assert_eq!(m.total_items, 2);
    assert_eq!(m.flush_deadline, 1);
    assert_eq!(m.flush_max_batch, 0);
}

#[test]
fn backpressure_drop() {
    let mut core = BatcherCore::<i64, u8>::new(2, 10000, "drop").unwrap();
    assert!(matches!(core.submit(1, 0u8, 0), SubmitDecision::Enqueued(_)));
    assert!(matches!(core.submit(2, 0u8, 0), SubmitDecision::Enqueued(_)));
    // The queue is saturated: the third submission fails at once.
    assert!(matches!(core.submit(3, 0u8, 0), SubmitDecision::Rejected));
    let m = core.metrics();
    assert_eq!(m.total_batches, 0);
    assert_eq!(m.total_items, 0);
}

#[test]
fn backpressure_passthrough() {
    let mut core = BatcherCore::<i64, u8>::new(2, 10000, "passthrough").unwrap();
    assert!(matches!(core.submit(1, 7u8, 0), SubmitDecision::Enqueued(_)));
    assert!(matches!(core.submit(2, 7u8, 0), SubmitDecision::Enqueued(_)));
    let (item, executor) = match core.submit(3, 7u8, 0) {
        SubmitDecision::Passthrough(item, executor) => (item, executor),
        _ => panic!("saturated passthrough should bypass the queue"),
    };
    assert_eq!(item, 3);
    assert_eq!(executor, 7u8);
    // The runtime runs the executor synchronously on the singleton batch.
    let outputs = vec![item];
    assert_eq!(passthrough_result(outputs), Ok(3));
    // The bypass touched no counter.
    let m = core.metrics();
    assert_eq!(m.total_batches, 0);
    assert_eq!(m.total_items, 0);
    assert_eq!(m.flush_max_batch, 0);
    assert_eq!(m.flush_deadline, 0);
}

#[test]
fn executor_length_mismatch() {
    let mut core = BatcherCore::<i64, u8>::new(3, 1000, "block").unwrap();
    for (i, item) in [1i64, 2, 3].iter().enumerate() {
        assert!(matches!(
            core.submit(*item, 0u8, i as u64),
            SubmitDecision::Enqueued(_)
        ));
    }
    assert!(matches!(core.accumulate_decision(0), AccumulateStep::Dispatch));
    let batch = core.drain();
    assert_eq!(batch.len(), 3);
    // The executor returned two outputs for three inputs.
    let deliveries = route_results(&batch, ExecutorOutcome::Output(vec![10i64, 20]));
    assert_eq!(deliveries.len(), 3);
    for d in &deliveries {
        match &d.outcome {
            Err(m) => {
                assert_eq!(m.as_str(), "executor returned 2 items for 3 inputs");
                assert!(m.contains("2 items for 3 inputs"));
            }
            Ok(_) => panic!("every submitter of the batch must fail"),
        }
    }
    // The batch itself is still recorded.
    let m = core.metrics();
    assert_eq!(m.total_batches, 1);
    assert_eq!(m.total_items, 3);
}

#[test]
fn manual_flush() {
    let mut core = BatcherCore::<i64, u8>::new(100, 60000, "block").unwrap();
    for (i, item) in [1i64, 2, 3].iter().enumerate() {
        assert!(matches!(
            core.submit(*item, 0u8, i as u64),
            SubmitDecision::Enqueued(_)
        ));
    }
    // Well under the deadline the worker would keep waiting.
    assert!(matches!(core.accumulate_decision(5), AccumulateStep::Sleep(_)));
    core.flush();
    // The flush hint makes the pending batch due at once.
    assert!(matches!(core.accumulate_decision(5), AccumulateStep::Dispatch));
    let batch = core.drain();
    assert_eq!(batch.len(), 3);
    let m = core.metrics();
    assert_eq!(m.flush_manual, 1);
    assert_eq!(m.flush_deadline, 1);
    assert_eq!(m.flush_max_batch, 0);
    assert_eq!(m.total_batches, 1);
    assert_eq!(m.total_items, 3);
}

#[test]
fn flush_on_empty_queue_is_only_counted() {
    let mut core = BatcherCore::<i64, u8>::new(10, 60000, "block").unwrap();
    core.flush();
    assert_eq!(core.metrics().flush_manual, 1);
    // An empty queue stays empty: the worker still sleeps.
    assert!(matches!(core.worker_wait_decision(), WorkerPhase::Sleep));
    // The stale hint does not flush the next submission early.
    assert!(matches!(core.submit(1, 0u8, 100), SubmitDecision::Enqueued(_)));
    assert!(matches!(core.accumulate_decision(101), AccumulateStep::Sleep(_)));
}

#[test]
fn close_releases_worker_and_blocked_submitters() {
    let mut core = BatcherCore::<i64, u8>::new(1, 1000, "block").unwrap();
    assert!(matches!(core.submit(1, 0u8, 0), SubmitDecision::Enqueued(_)));
    // A saturated queue under the block policy tells the submitter to wait.
    match core.submit(2, 0u8, 1) {
        SubmitDecision::MustWait(item, _) => assert_eq!(item, 2),
        _ => panic!("saturated block should wait"),
    }
    core.close();
    // The worker exits at its next wait boundary, pending items and all.
    assert!(matches!(core.worker_wait_decision(), WorkerPhase::Exit));
    // Closing is idempotent by effect.
    core.close();
    assert!(matches!(core.worker_wait_decision(), WorkerPhase::Exit));
}

#[test]
fn conservation_across_batches() {
    let mut core = BatcherCore::<i64, u8>::new(3, 1000, "block").unwrap();
    let mut dispatched = 0u64;
    let mut ok_via_worker = 0u64;
    for round in 0..3u64 {
        let size = (round + 1) as usize; // batches of 1, 2, 3
        for k in 0..size {
            assert!(matches!(
                core.submit(k as i64, 0u8, round * 10 + k as u64),
                SubmitDecision::Enqueued(_)
            ));
        }
        let batch = core.drain();
        assert!(1 <= batch.len() && batch.len() <= 3);
        assert_eq!(batch.len(), size);
        dispatched += batch.len() as u64;
        let outputs: Vec<i64> = batch.iter().map(|p| p.item).collect();
        let deliveries = route_results(&batch, ExecutorOutcome::Output(outputs));
        ok_via_worker += deliveries.iter().filter(|d| d.outcome.is_ok()).count() as u64;
    }
    let m = core.metrics();
    // Every dispatched submission is counted exactly once, and each
    // produced exactly one successful delivery.
    assert_eq!(m.total_items, dispatched);
    assert_eq!(m.total_items, ok_via_worker);
    assert_eq!(m.total_batches, 3);
    // Exactly one classification per batch.
    assert_eq!(m.flush_max_batch + m.flush_deadline, m.total_batches);
}

#[test]
fn fifo_order_across_batches() {
    let mut core = BatcherCore::<i64, u8>::new(2, 1000, "block").unwrap();
    let t1 = match core.submit(10, 0u8, 0) {
        SubmitDecision::Enqueued(t) => t,
        _ => panic!("enqueue"),
    };
    let t2 = match core.submit(20, 0u8, 1) {
        SubmitDecision::Enqueued(t) => t,
        _ => panic!("enqueue"),
    };
    assert!(t1 < t2);
    let batch = core.drain();
    assert_eq!(batch[0].ticket, t1);
    assert_eq!(batch[0].item, 10);
    assert_eq!(batch[1].ticket, t2);
    assert_eq!(batch[1].item, 20);
    // Capacity is free again: a blocked submitter can now enqueue.
    let t3 = match core.submit(30, 0u8, 2) {
        SubmitDecision::Enqueued(t) => t,
        _ => panic!("enqueue after drain"),
    };
    assert!(t2 < t3);
}
