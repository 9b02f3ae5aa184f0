//! Network diagnostics: the decision layer behind a flat, C-compatible call
//! surface (host lookup, TCP reachability probe, hardware address query and
//! remote time query).
//!
//! Each operation is split in two steps. A `*_start` function validates the
//! caller's arguments and either finishes the call at once or names the one
//! outside query to run; a `*_finish` function takes what that query produced
//! and decides the status and the output. The outside work itself (resolver,
//! sockets, interface table, time protocol) is done by the caller.
use vstd::prelude::*;

pub mod status;
pub mod cstr;
pub mod lookup;
pub mod health;
pub mod hwaddr;
pub mod clock;

verus! {

/// The library's semantic version.
pub const VERSION: &'static str = "0.1.0";

/// The library's semantic version, as text without a terminator.
pub fn version() -> (r: &'static str)
    ensures
        r@ == VERSION@,
{
    VERSION
}

} // verus!
