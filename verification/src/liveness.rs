//! The reporter that keeps a connection alive while its loop runs.

use vstd::prelude::*;

verus! {

/// The time between two keepalive frames, in seconds.
pub const KEEPALIVE_INTERVAL: u64 = 10;

/// What the reporter does when it wakes.
#[derive(Debug, Clone, Copy, PartialEq, Eq, Structural)]
pub enum Beat {
    /// Send a keepalive frame on the connection's outbound channel.
    Ping,
    /// Send nothing more and end.
    Stop,
}

/// What the reporter does when it wakes and finds the connection's loop
/// `finished` or not.
pub fn beat(finished: bool) -> (b: Beat)
    ensures
        b == if finished {
            Beat::Stop
        } else {
            Beat::Ping
        },
{
    if finished {
        Beat::Stop
    } else {
        Beat::Ping
    }
}

} // verus!
