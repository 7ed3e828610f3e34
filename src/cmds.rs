//! Commands that a subscription's worker loop executes.

use vstd::prelude::*;

use std::time::Duration;

verus! {

/// A command for a subscription's worker loop.
pub enum SubscriberCmd {
    /// Stop receiving once what is in flight has been delivered.
    Drain,
    /// Stop receiving at once.
    Unsubscribe,
    /// Stop receiving after this many more messages.
    UnsubscribeAfter(u64),
    /// Take the next message, waiting at most this long where a bound is given.
    RecvMsg(Option<Duration>),
}

} // verus!
