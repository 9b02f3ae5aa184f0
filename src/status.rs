use vstd::prelude::*;

verus! {

/// Outcome of one operation, turned into an integer only at the call
/// boundary (see [`Status::code`]).
#[derive(Clone, Copy, Debug, PartialEq, Eq, Structural)]
pub enum Status {
    Success,
    /// A required argument was absent, a capacity or port was zero, or an
    /// argument could not be interpreted.
    InvalidArgument,
    /// The outside query completed but gave no usable result.
    NotFound,
    /// A time-bounded outside query did not complete in time.
    TimedOut,
    /// Any other failure of the outside query.
    OperationFailed,
}

/// The boundary code of a status: `0` on success, negative otherwise.
///
/// No operation can end both in `NotFound` and in `TimedOut`, so the two
/// share a code.
pub open spec fn spec_code(s: Status) -> int {
    match s {
        Status::Success => 0,
        Status::InvalidArgument => -1,
        Status::NotFound => -2,
        Status::TimedOut => -2,
        Status::OperationFailed => -3,
    }
}

impl Status {
    pub fn code(self) -> (r: i32)
        ensures
            r == spec_code(self),
    {
        match self {
            Status::Success => 0,
            Status::InvalidArgument => -1,
            Status::NotFound => -2,
            Status::TimedOut => -2,
            Status::OperationFailed => -3,
        }
    }
}

/// What the first step of an operation decided: finish now with a status,
/// or run one outside query described by `Q`.
pub enum Step<Q> {
    Done(Status),
    Query(Q),
}

} // verus!
