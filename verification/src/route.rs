//! Fan-out of one executor invocation back to the submitters of a batch.
//!
//! The executor receives the batch's items in order and is expected to
//! return one output per item, in the same order. Whatever came back, every
//! submitter in the batch receives exactly one delivery: its positional
//! output on success, and one identical report on any failure.

use vstd::prelude::*;

use crate::messages::{
    mismatch_message, mismatch_message_spec, not_list_message, passthrough_arity_message,
    raised_message, raised_message_spec,
};
use crate::queue::Pending;

verus! {

/// What the runtime saw come back from one executor invocation.
pub enum ExecutorOutcome<R> {
    /// The executor returned a list; these are its elements in order.
    Output(Vec<R>),
    /// The executor returned something that is not a list.
    NotList,
    /// The executor raised; the text is the host's rendering of the failure.
    Raised(String),
}

/// One message for one submitter: the value or the report to send on the
/// result channel registered under the ticket.
pub struct Delivery<R> {
    /// The ticket of the submission this delivery answers.
    pub ticket: u64,
    /// What the submitter receives on its channel.
    pub outcome: Result<R, String>,
}

/// Each submitter of the batch, in order, is answered under its own ticket
/// with its positional output.
pub open spec fn routes_outputs<T, E, R>(
    batch: Seq<Pending<T, E>>,
    ys: Seq<R>,
    ds: Seq<Delivery<R>>,
) -> bool {
    &&& ds.len() == batch.len()
    &&& forall|i: int|
        0 <= i < ds.len() ==> (#[trigger] ds[i]).ticket == batch[i].ticket && ds[i].outcome
            == Ok::<R, String>(ys[i])
}

/// Each submitter of the batch, in order, is answered under its own ticket
/// with one identical report.
pub open spec fn routes_failure<T, E, R>(
    batch: Seq<Pending<T, E>>,
    msg: Seq<char>,
    ds: Seq<Delivery<R>>,
) -> bool {
    &&& ds.len() == batch.len()
    &&& forall|i: int|
        0 <= i < ds.len() ==> (#[trigger] ds[i]).ticket == batch[i].ticket && (ds[i].outcome
            matches Err(m) && m@ == msg)
}

/// The executor a batch runs under: the one attached to its first record.
/// All submitters of one deployment are expected to supply the same
/// executor; the core trusts them and picks the head's.
pub fn batch_executor<T, E>(batch: &Vec<Pending<T, E>>) -> (e: &E)
    requires
        batch@.len() > 0,
    ensures
        e == &batch@[0].executor,
{
    &batch[0].executor
}

/// Answer every submitter of the batch with the same report.
fn deliver_failure<T, E, R>(batch: &Vec<Pending<T, E>>, msg: String) -> (ds: Vec<Delivery<R>>)
    ensures
        routes_failure(batch@, msg@, ds@),
{
    let mut ds: Vec<Delivery<R>> = Vec::new();
    let mut i: usize = 0;
    while i < batch.len()
        invariant
            i <= batch@.len(),
            ds@.len() == i,
            forall|k: int|
                0 <= k < i as int ==> (#[trigger] ds@[k]).ticket == batch@[k].ticket && (
                ds@[k].outcome matches Err(m) && m@ == msg@),
        decreases batch@.len() - i,
    {
        ds.push(Delivery { ticket: batch[i].ticket, outcome: Err(msg.clone()) });
        i = i + 1;
    }
    ds
}

/// Route one executor outcome to the whole batch. A list of matching
/// length answers each submitter positionally; a list of the wrong length,
/// a non-list, and a raise each answer every submitter with the one report
/// the failure calls for.
pub fn route_results<T, E, R>(batch: &Vec<Pending<T, E>>, outcome: ExecutorOutcome<R>) -> (ds: Vec<
    Delivery<R>,
>)
    ensures
        ds@.len() == batch@.len(),
        forall|i: int| 0 <= i < ds@.len() ==> (#[trigger] ds@[i]).ticket == batch@[i].ticket,
        (outcome matches ExecutorOutcome::Output(ys) && ys@.len() == batch@.len())
            ==> routes_outputs(batch@, outcome->Output_0@, ds@),
        (outcome matches ExecutorOutcome::Output(ys) && ys@.len() != batch@.len())
            ==> routes_failure(
            batch@,
            mismatch_message_spec(outcome->Output_0@.len(), batch@.len()),
            ds@,
        ),
        outcome is NotList ==> routes_failure(batch@, "executor must return a list"@, ds@),
        outcome matches ExecutorOutcome::Raised(m) ==> routes_failure(
            batch@,
            raised_message_spec(m@),
            ds@,
        ),
{
    match outcome {
        ExecutorOutcome::Output(mut ys) => {
            if ys.len() == batch.len() {
                let ghost ys0 = ys@;
                let mut ds: Vec<Delivery<R>> = Vec::new();
                let mut i: usize = 0;
                while i < batch.len()
                    invariant
                        i <= batch@.len(),
                        ys0.len() == batch@.len(),
                        ds@.len() == i,
                        ys@ =~= ys0.skip(i as int),
                        forall|k: int|
                            0 <= k < i as int ==> (#[trigger] ds@[k]).ticket == batch@[k].ticket
                                && ds@[k].outcome == Ok::<R, String>(ys0[k]),
                    decreases batch@.len() - i,
                {
                    let y = ys.remove(0);
                    proof {
                        assert(y == ys0[i as int]);
                        assert(ys@ =~= ys0.skip(i as int + 1));
                    }
                    ds.push(Delivery { ticket: batch[i].ticket, outcome: Ok(y) });
                    i = i + 1;
                }
                ds
            } else {
                let msg = mismatch_message(ys.len(), batch.len());
                deliver_failure(batch, msg)
            }
        },
        ExecutorOutcome::NotList => deliver_failure(batch, not_list_message()),
        ExecutorOutcome::Raised(m) => {
            let msg = raised_message(m.as_str());
            deliver_failure(batch, msg)
        },
    }
}

/// The outcome of a passthrough call: the executor ran synchronously on a
/// singleton batch and must have returned exactly one output, which goes
/// straight back to the one submitter.
pub fn passthrough_result<R>(mut ys: Vec<R>) -> (r: Result<R, String>)
    ensures
        ys@.len() == 1 ==> r == Ok::<R, String>(ys@[0]),
        ys@.len() != 1 ==> (r matches Err(m) && m@
            == "executor must return one item in passthrough mode"@),
{
    if ys.len() == 1 {
        Ok(ys.remove(0))
    } else {
        Err(passthrough_arity_message())
    }
}

} // verus!
