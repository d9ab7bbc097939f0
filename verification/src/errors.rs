//! The failures a submitter can see.

use vstd::prelude::*;

verus! {

/// Every failure the batcher surfaces to a caller.
#[derive(Clone, PartialEq, Eq, Debug)]
pub enum BatchError {
    /// Construction was handed an unknown backpressure policy.
    InvalidConfig,
    /// The queue was saturated and the policy was to drop the submission.
    QueueFull,
    /// The executor raised, returned a non-list, or returned a list of the
    /// wrong length; the text is the report delivered to the whole batch.
    ExecutorError(String),
    /// The submitter was still waiting when the worker exited.
    WorkerStopped,
}

impl BatchError {
    /// The caller-facing text of the failure.
    pub fn message(&self) -> (m: String)
        ensures
            self is InvalidConfig ==> m@ == "backpressure must be one of: block, drop, passthrough"@,
            self is QueueFull ==> m@ == "queue full (backpressure=drop)"@,
            self matches BatchError::ExecutorError(d) ==> m@ == d@,
            self is WorkerStopped ==> m@ == "batcher worker stopped"@,
    {
        match self {
            BatchError::InvalidConfig => "backpressure must be one of: block, drop, passthrough"
                .to_owned(),
            BatchError::QueueFull => "queue full (backpressure=drop)".to_owned(),
            BatchError::ExecutorError(d) => d.clone(),
            BatchError::WorkerStopped => "batcher worker stopped".to_owned(),
        }
    }
}

/// Map what a submitter received on its result channel to the call's
/// outcome: a value passes through, a report becomes an executor error, and
/// a channel that closed without a message means the worker stopped.
pub fn submit_outcome<R>(received: Option<Result<R, String>>) -> (r: Result<R, BatchError>)
    ensures
        received matches Some(Ok(v)) ==> r == Ok::<R, BatchError>(v),
        received matches Some(Err(m)) ==> r == Err::<R, BatchError>(BatchError::ExecutorError(m)),
        received is None ==> r == Err::<R, BatchError>(BatchError::WorkerStopped),
{
    match received {
        Some(Ok(v)) => Ok(v),
        Some(Err(m)) => Err(BatchError::ExecutorError(m)),
        None => Err(BatchError::WorkerStopped),
    }
}

} // verus!
