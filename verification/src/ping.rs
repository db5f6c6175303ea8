//! Waiting for the network: how many times to ask, and when to give up.
use vstd::prelude::*;

verus! {

/// How many times the network is asked before giving up.
pub const PING_TRIES: u8 = 10;

/// What to do after one attempt to reach the network.
#[derive(Clone, Copy, Debug, PartialEq, Eq, Structural)]
pub enum PingStep {
    /// The network answered: go on.
    Online,
    /// Every try failed: give up.
    Offline,
    /// Wait, then make the try with the given number (counted from zero).
    Retry(u8),
}

/// # Ping Step.
///
/// The decision after try number `tries` (counted from zero), which reached
/// the network or not: an answer means online; otherwise the tenth failure
/// means offline, and any earlier one means another try.
pub fn ping_step(tries: u8, reached: bool) -> (r: PingStep)
    requires
        tries < PING_TRIES,
    ensures
        reached ==> r == PingStep::Online,
        !reached && tries + 1 == PING_TRIES ==> r == PingStep::Offline,
        !reached && tries + 1 < PING_TRIES ==> r == PingStep::Retry((tries + 1) as u8),
{
    if reached {
        PingStep::Online
    } else if tries + 1 == PING_TRIES {
        PingStep::Offline
    } else {
        PingStep::Retry(tries + 1)
    }
}

} // verus!
