use vstd::prelude::*;

verus! {

/// Failures of the bridge itself, as seen by the caller of a command.
#[derive(Debug, Clone, Copy, PartialEq, Eq, Structural)]
pub enum BridgeError {
    /// The readiness descriptor for the call could not be created.
    DescriptorUnavailable,
    /// The resource's worker loop is gone: the command was not accepted,
    /// or it was discarded without being executed.
    ChannelClosed,
    /// The host notifier reported an error while waiting.
    NotifierFailure,
    /// The descriptor became ready but no result had been written.
    ResultUnavailableAfterSignal,
}

/// A failure of the backing engine while executing a command, carried
/// verbatim to the caller.
#[derive(Debug, Clone, PartialEq, Eq)]
pub struct EngineError {
    pub message: String,
}

impl EngineError {
    pub fn new(message: String) -> (r: EngineError)
        ensures
            r.message == message,
    {
        EngineError { message }
    }
}

} // verus!
