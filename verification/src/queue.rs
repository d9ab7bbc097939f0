//! The shape of one pending submission and the saturation policy.

use vstd::prelude::*;

use crate::errors::BatchError;

verus! {

/// What a submitter does when it finds the queue saturated.
#[derive(Clone, Copy, PartialEq, Eq, Structural, Debug)]
pub enum Backpressure {
    /// Wait for capacity, then enqueue.
    Block,
    /// Fail at once with a queue-full error.
    Drop,
    /// Bypass the queue: run the executor synchronously on a singleton batch.
    Passthrough,
}

impl Backpressure {
    /// Read a policy from its configuration name. Exactly `"block"`,
    /// `"drop"` and `"passthrough"` are accepted; anything else is an
    /// invalid configuration.
    pub fn parse(s: &str) -> (r: Result<Backpressure, BatchError>)
        ensures
            r == Ok::<Backpressure, BatchError>(Backpressure::Block) <==> s@ == "block"@,
            r == Ok::<Backpressure, BatchError>(Backpressure::Drop) <==> s@ == "drop"@,
            r == Ok::<Backpressure, BatchError>(Backpressure::Passthrough) <==> s@
                == "passthrough"@,
            r is Err ==> r == Err::<Backpressure, BatchError>(BatchError::InvalidConfig),
            r is Err <==> s@ != "block"@ && s@ != "drop"@ && s@ != "passthrough"@,
    {
        proof {
            reveal_strlit("block");
            reveal_strlit("drop");
            reveal_strlit("passthrough");
            assert("block"@.len() == 5);
            assert("drop"@.len() == 4);
            assert("passthrough"@.len() == 11);
        }
        let owned = s.to_owned();
        if owned == "block".to_owned() {
            Ok(Backpressure::Block)
        } else if owned == "drop".to_owned() {
            Ok(Backpressure::Drop)
        } else if owned == "passthrough".to_owned() {
            Ok(Backpressure::Passthrough)
        } else {
            Err(BatchError::InvalidConfig)
        }
    }
}

/// One in-flight submission.
///
/// The item and the executor are opaque handles the core never inspects.
/// The ticket identifies the submission's private result channel: tickets
/// are handed out in enqueue order, and the runtime delivers each routed
/// outcome to the channel registered under its ticket.
pub struct Pending<T, E> {
    /// Position of this submission in the global enqueue order; stands for
    /// its single-shot result channel.
    pub ticket: u64,
    /// Milliseconds on the runtime's monotonic clock when the submission
    /// was enqueued.
    pub enqueued_at: u64,
    /// The payload to be batched.
    pub item: T,
    /// The batch executor the submitter supplied.
    pub executor: E,
}

} // verus!
