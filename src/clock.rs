use vstd::prelude::*;

use crate::cstr::append_bytes;
use crate::status::{Status, Step};

verus! {

/// One time-protocol query to run: the server (`None`: the client's default
/// pool) and the timeout to apply to the client (`None`: its default).
pub struct TimeQuery {
    pub server: Option<Vec<u8>>,
    pub timeout_ms: Option<u64>,
}

/// How a time query ended, as seen by the caller that ran it.
#[derive(Clone, Copy, Debug, PartialEq, Eq, Structural)]
pub enum TimeOutcome {
    /// The client refused the requested timeout.
    TimeoutRejected,
    /// The server answered with this Unix timestamp (seconds).
    Received(i64),
    /// No answer came before the timeout.
    TimedOut,
    /// Any other network or protocol failure.
    Failed,
}

/// Validates a time request. An absent output slot ends the call with
/// `InvalidArgument`; otherwise the query goes to `server` (the default pool
/// when absent), with the timeout applied only when it is not zero.
pub fn time_request_start(slot_present: bool, server: Option<&[u8]>, timeout_ms: u64) -> (r: Step<
    TimeQuery,
>)
    ensures
        !slot_present ==> (r matches Step::Done(s) && s == Status::InvalidArgument),
        match r {
            Step::Done(s) => s == Status::InvalidArgument && !slot_present,
            Step::Query(q) => {
                &&& slot_present
                &&& q.timeout_ms == (if timeout_ms == 0 {
                    None
                } else {
                    Some(timeout_ms)
                })
                &&& match server {
                    None => q.server.is_none(),
                    Some(s) => q.server.is_some() && q.server.unwrap()@ == s@,
                }
            },
        },
{
    if !slot_present {
        return Step::Done(Status::InvalidArgument);
    }
    let server_text = match server {
        Some(s) => {
            let mut v: Vec<u8> = Vec::new();
            append_bytes(&mut v, s);
            assert(v@ =~= s@);
            Some(v)
        },
        None => None,
    };
    let timeout = if timeout_ms == 0 {
        None
    } else {
        Some(timeout_ms)
    };
    Step::Query(TimeQuery { server: server_text, timeout_ms: timeout })
}

/// The status of a time query that ended in `outcome`.
pub open spec fn time_status(outcome: TimeOutcome) -> Status {
    match outcome {
        TimeOutcome::TimeoutRejected => Status::InvalidArgument,
        TimeOutcome::Received(_) => Status::Success,
        TimeOutcome::TimedOut => Status::TimedOut,
        TimeOutcome::Failed => Status::OperationFailed,
    }
}

/// Completes a time request: a received timestamp is stored in `timestamp`;
/// on every other outcome the slot keeps its value.
pub fn time_request_finish(outcome: TimeOutcome, timestamp: &mut i64) -> (r: Status)
    ensures
        r == time_status(outcome),
        match outcome {
            TimeOutcome::Received(t) => *final(timestamp) == t,
            _ => *final(timestamp) == *old(timestamp),
        },
{
    match outcome {
        TimeOutcome::TimeoutRejected => Status::InvalidArgument,
        TimeOutcome::Received(t) => {
            *timestamp = t;
            Status::Success
        },
        TimeOutcome::TimedOut => Status::TimedOut,
        TimeOutcome::Failed => Status::OperationFailed,
    }
}

} // verus!
