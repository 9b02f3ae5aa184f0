use vstd::prelude::*;

use crate::cstr::append_bytes;
use crate::status::{Status, Step};

verus! {

/// The ASCII decimal digits of `n`, most significant first, without leading
/// zeros.
pub open spec fn decimal(n: nat) -> Seq<u8>
    decreases n,
{
    if n < 10 {
        seq![(48 + n) as u8]
    } else {
        decimal(n / 10) + seq![(48 + n % 10) as u8]
    }
}

/// The socket address text `address:port` that a probe connects to.
pub open spec fn probe_target(address: Seq<u8>, port: u16) -> Seq<u8> {
    address + seq![58u8] + decimal(port as nat)
}

/// Appends the decimal digits of `n` to `out`.
pub fn push_decimal(out: &mut Vec<u8>, n: u16)
    ensures
        final(out)@ == old(out)@ + decimal(n as nat),
    decreases n,
{
    if n >= 10 {
        push_decimal(out, n / 10);
    }
    out.push(48u8 + (n % 10) as u8);
    assert(out@ =~= old(out)@ + decimal(n as nat));
}

/// How a reachability probe ended, as seen by the caller that ran it.
#[derive(Clone, Copy, Debug, PartialEq, Eq, Structural)]
pub enum ProbeOutcome {
    /// The target text is not a socket address.
    Unparsable,
    /// The TCP connection was established (and then dropped).
    Connected,
    /// The connect attempt did not complete before the deadline.
    TimedOut,
    /// The connect attempt failed for another reason (refused, unreachable).
    Failed,
}

/// Validates a probe request. An absent address or port zero ends the call
/// with `InvalidArgument`; otherwise the probe is to connect to
/// `address:port`. No name resolution is involved: the address must be an
/// IP literal for the target to parse.
pub fn connection_health_start(address: Option<&[u8]>, port: u16) -> (r: Step<Vec<u8>>)
    ensures
        address.is_none() || port == 0 ==> (r matches Step::Done(s) && s
            == Status::InvalidArgument),
        match r {
            Step::Done(s) => s == Status::InvalidArgument && (address.is_none() || port == 0),
            Step::Query(q) => address.is_some() && port != 0 && q@ == probe_target(
                address.unwrap()@,
                port,
            ),
        },
{
    match address {
        Some(a) => {
            if port == 0 {
                return Step::Done(Status::InvalidArgument);
            }
            let mut q: Vec<u8> = Vec::new();
            append_bytes(&mut q, a);
            q.push(58u8);
            push_decimal(&mut q, port);
            assert(q@ =~= probe_target(a@, port));
            Step::Query(q)
        },
        None => Step::Done(Status::InvalidArgument),
    }
}

/// The status of a probe that ended in `outcome`: a timeout is reported
/// apart from the other connect failures.
pub open spec fn probe_status(outcome: ProbeOutcome) -> Status {
    match outcome {
        ProbeOutcome::Unparsable => Status::InvalidArgument,
        ProbeOutcome::Connected => Status::Success,
        ProbeOutcome::TimedOut => Status::TimedOut,
        ProbeOutcome::Failed => Status::OperationFailed,
    }
}

/// Completes a probe from its outcome.
pub fn connection_health_finish(outcome: ProbeOutcome) -> (r: Status)
    ensures
        r == probe_status(outcome),
{
    match outcome {
        ProbeOutcome::Unparsable => Status::InvalidArgument,
        ProbeOutcome::Connected => Status::Success,
        ProbeOutcome::TimedOut => Status::TimedOut,
        ProbeOutcome::Failed => Status::OperationFailed,
    }
}

} // verus!
