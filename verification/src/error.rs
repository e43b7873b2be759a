use vstd::prelude::*;

verus! {

/// Failures that the driver reports to its callers.
#[derive(Debug, Clone, Copy, PartialEq, Eq, Structural)]
pub enum LoraError {
    SendError,
    RecvError,
    RecvTimeout,
    RecvBufferTooSmall,
    NotInitialized,
    NotImplemented,
    OtherError,
}

} // verus!
