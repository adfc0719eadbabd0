use vstd::prelude::*;

use crate::models::ConfGetRawResult;

verus! {

/// What a test configuration center answers for a key: the stored entry, or the
/// default result it was made with where nothing is stored.
pub fn mock_lookup(found: Option<ConfGetRawResult>, default_result: ConfGetRawResult) -> (r:
    ConfGetRawResult)
    ensures
        r == (match found {
            Some(res) => res,
            None => default_result,
        }),
{
    match found {
        Some(res) => res,
        None => default_result,
    }
}

/// One watcher acknowledges an update: the count of pending acknowledgments drops by one
/// unless it is already zero, and the waiting side is to be notified exactly when the
/// count reaches zero by this acknowledgment.
pub fn acknowledge(pending: usize) -> (r: (usize, bool))
    ensures
        pending > 0 ==> r == (((pending - 1) as usize), pending == 1),
        pending == 0 ==> r == (0usize, false),
        r.0 <= pending,
        r.1 ==> r.0 == 0,
{
    if pending > 0 {
        let left = pending - 1;
        (left, left == 0)
    } else {
        (pending, false)
    }
}

/// What one non-blocking receive on an update channel gave.
#[derive(Debug, Clone)]
pub enum RecvOutcome<T> {
    Received(T),
    Empty,
    Closed,
    Lagged(u64),
}

/// What a watch stream does after a receive.
#[derive(Debug, Clone)]
pub enum PollStep<T> {
    /// The stream yields this item, or ends on `None`.
    Ready(Option<T>),
    /// Nothing is there yet: wake the task and report pending.
    Pending,
    /// Updates were missed: try one more receive for the latest one.
    RetryAfterLag,
}

/// Decides the poll of a watch stream from one receive; `after_lag` tells that this
/// receive is the single retry made after missed updates.
pub fn poll_step<T>(outcome: RecvOutcome<T>, after_lag: bool) -> (r: PollStep<T>)
    ensures
        match outcome {
            RecvOutcome::Received(v) => r == PollStep::Ready(Some(v)),
            RecvOutcome::Empty => r is Pending,
            RecvOutcome::Closed => if after_lag {
                r is Pending
            } else {
                r == PollStep::<T>::Ready(None)
            },
            RecvOutcome::Lagged(_) => if after_lag {
                r is Pending
            } else {
                r is RetryAfterLag
            },
        },
        after_lag ==> !(r is RetryAfterLag),
{
    match outcome {
        RecvOutcome::Received(v) => PollStep::Ready(Some(v)),
        RecvOutcome::Empty => PollStep::Pending,
        RecvOutcome::Closed => if after_lag {
            PollStep::Pending
        } else {
            PollStep::Ready(None)
        },
        RecvOutcome::Lagged(_) => if after_lag {
            PollStep::Pending
        } else {
            PollStep::RetryAfterLag
        },
    }
}

} // verus!
