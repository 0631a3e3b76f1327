//! Decision logic of the blocking wait adapter.
//!
//! The caller drives one pending RPC by polling it repeatedly on the
//! calling thread, without any blocking primitive. Each poll settles
//! into one of three observations, and the step function below decides
//! what the loop does with it: return the value, poll again, or abort.
//! Exactly one such wait occurs per invocation, and a failure aborts
//! at once — no retry, regardless of the command in flight.

use vstd::prelude::*;

verus! {

/// What one poll of a pending result observed.
#[derive(Debug)]
pub enum PollOutcome<T> {
    /// The operation resolved to its value.
    Ready(T),
    /// The operation is still in flight.
    NotReady,
    /// The operation failed in transport, with a diagnostic.
    Failed(String),
}

/// What the wait loop does after one poll.
#[derive(Debug)]
pub enum WaitStep<T> {
    /// Return the resolved value to the caller.
    Resolved(T),
    /// Poll again at once; nothing settled yet.
    PollAgain,
    /// Abort the process with the diagnostic.
    Abort(String),
}

/// Decides one iteration of the wait loop: a ready operation resolves
/// the wait, a pending one is polled again, and a failure aborts —
/// immediately and unconditionally.
pub fn poll_step<T>(outcome: PollOutcome<T>) -> (r: WaitStep<T>)
    ensures
        outcome matches PollOutcome::Ready(v) ==> (r matches WaitStep::Resolved(w) && w == v),
        (outcome is NotReady) <==> (r is PollAgain),
        outcome matches PollOutcome::Failed(m) ==> (r matches WaitStep::Abort(d) && d == m),
{
    match outcome {
        PollOutcome::Ready(v) => WaitStep::Resolved(v),
        PollOutcome::NotReady => WaitStep::PollAgain,
        PollOutcome::Failed(m) => WaitStep::Abort(m),
    }
}

/// What a whole wait comes to over a sequence of poll observations:
/// the first settled observation decides it, and a wait over
/// observations that never settle yields nothing — the loop would
/// still be spinning.
pub open spec fn spec_resolve<T>(trace: Seq<PollOutcome<T>>) -> Option<Result<T, String>>
    decreases trace.len(),
{
    if trace.len() == 0 {
        None
    } else {
        match trace[0] {
            PollOutcome::Ready(v) => Some(Ok(v)),
            PollOutcome::Failed(m) => Some(Err(m)),
            PollOutcome::NotReady => spec_resolve(trace.drop_first()),
        }
    }
}

/// Runs the wait loop over a finite sequence of poll observations:
/// polls past every pending observation and returns the first settled
/// one — the value on success, the diagnostic on a transport failure.
pub fn resolve_trace<T>(trace: Vec<PollOutcome<T>>) -> (r: Option<Result<T, String>>)
    ensures
        r == spec_resolve(trace@),
{
    let mut rest = trace;
    loop
        invariant
            spec_resolve(rest@) == spec_resolve(trace@),
        decreases rest@.len(),
    {
        if rest.len() == 0 {
            return None;
        }
        let ghost before = rest@;
        let first = rest.remove(0);
        proof {
            assert(before.drop_first() =~= rest@);
        }
        match first {
            PollOutcome::Ready(v) => {
                return Some(Ok(v));
            },
            PollOutcome::Failed(m) => {
                return Some(Err(m));
            },
            PollOutcome::NotReady => {},
        }
    }
}

} // verus!
