use vstd::prelude::*;

verus! {

/// What the device or the reactor reported when an attempt did not succeed.
#[derive(Clone, Copy, Debug, PartialEq, Eq)]
pub enum Fault {
    /// An operating-system failure, with its raw code where one was given.
    Os(Option<i32>),
    /// The platform offers no primitive for the requested operation.
    Unsupported,
}

/// Errors that the bridge reports to its caller.
#[derive(Clone, Copy, Debug, PartialEq, Eq)]
pub enum BridgeError {
    /// The path is missing, is not a serial device, or is held exclusively.
    Open,
    /// The reactor could not track the handle's readiness source.
    Registration,
    /// The operating system could not allocate a connected pair.
    Pair,
    /// The platform lacks the requested primitive.
    UnsupportedOperation,
    /// Any operating-system failure, passed through with its code.
    Io(Option<i32>),
    /// The bridge was closed before this operation.
    UseAfterClose,
    /// The bridge was shut down before this read or write.
    UseAfterShutdown,
}

/// The error that a device fault becomes.
pub open spec fn spec_error_of(f: Fault) -> BridgeError {
    match f {
        Fault::Os(code) => BridgeError::Io(code),
        Fault::Unsupported => BridgeError::UnsupportedOperation,
    }
}

/// Maps a device fault to the bridge's error.
pub fn error_of(f: Fault) -> (r: BridgeError)
    ensures
        r == spec_error_of(f),
{
    match f {
        Fault::Os(code) => BridgeError::Io(code),
        Fault::Unsupported => BridgeError::UnsupportedOperation,
    }
}

} // verus!
