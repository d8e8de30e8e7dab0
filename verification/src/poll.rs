//! The polling decision rule: what one iteration of the continuous
//! observation loop does with the outcome of its call.
//!
//! The loop itself — issuing the call, awaiting the handler, sleeping for
//! the interval, and being cancelled from outside — belongs to the caller's
//! scheduler.  The decision below is the whole of its logic: a success is
//! handed to the handler, a failure is contained as a skipped iteration,
//! and no outcome ever stops the loop or escapes to the caller.

use vstd::prelude::*;

use crate::error::Error;
use crate::response::XiaoaiResponse;

verus! {

/// What one polling iteration does after its call returns.
pub enum PollAction {
    /// Hand the full response to the handler, then continue.
    Deliver(XiaoaiResponse),
    /// Note the failure and continue; the handler is not invoked.
    Skip,
}

/// Decides one polling iteration: a successful call delivers exactly its
/// response; a failed call delivers nothing.  The decision is total — a
/// failure is never propagated, so a single failed call never stops the
/// watch.
pub fn poll_step(outcome: Result<XiaoaiResponse, Error>) -> (r: PollAction)
    ensures
        outcome matches Ok(resp) ==> r == PollAction::Deliver(resp),
        outcome is Err ==> r == PollAction::Skip,
{
    match outcome {
        Ok(resp) => PollAction::Deliver(resp),
        Err(_) => PollAction::Skip,
    }
}

/// How many handler invocations a trace of call outcomes produces, taking
/// each outcome as its success flag.
pub open spec fn deliveries(outcomes: Seq<bool>) -> nat
    decreases outcomes.len(),
{
    if outcomes.len() == 0 {
        0
    } else {
        (if outcomes[0] {
            1nat
        } else {
            0nat
        }) + deliveries(outcomes.drop_first())
    }
}

/// With calls that always succeed, every iteration invokes the handler
/// once: a trace of `n` successes makes exactly `n` deliveries, one per
/// iteration and in iteration order.
pub proof fn lemma_poll_all_successes_deliver(outcomes: Seq<bool>)
    requires
        forall|i: int| 0 <= i < outcomes.len() ==> outcomes[i],
    ensures
        deliveries(outcomes) == outcomes.len(),
    decreases outcomes.len(),
{
    if outcomes.len() > 0 {
        assert(outcomes[0]);
        lemma_poll_all_successes_deliver(outcomes.drop_first());
    }
}

/// With calls that always fail, the loop still runs through the whole
/// trace: no iteration invokes the handler, and — `poll_step` being total
/// — no failure is ever handed to the caller.
pub proof fn lemma_poll_failures_contained(outcomes: Seq<bool>)
    requires
        forall|i: int| 0 <= i < outcomes.len() ==> !outcomes[i],
    ensures
        deliveries(outcomes) == 0,
    decreases outcomes.len(),
{
    if outcomes.len() > 0 {
        assert(!outcomes[0]);
        lemma_poll_failures_contained(outcomes.drop_first());
    }
}

} // verus!
