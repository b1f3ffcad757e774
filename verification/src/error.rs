//! Error kinds of the gateway and the value that carries one to a caller.

use vstd::prelude::*;

verus! {

/// What went wrong, by the policy that applies to it.
#[derive(Clone, Copy, Debug, PartialEq, Eq, Structural)]
pub enum ErrorKind {
    /// A required configuration value is absent.
    ConfigMissing,
    /// The profile store could not be read or written.
    StoreError,
    /// The container engine cannot be reached.
    RuntimeUnavailable,
    /// A recorded container could not be started.
    ContainerStartFailed,
    /// The sandbox image could not be pulled.
    ImagePullFailed,
    /// A pseudo-terminal could not be allocated, configured or attached.
    PtyAllocFailed,
    /// No session is registered for the user.
    SessionNotFound,
    /// Reading, writing or flushing a pseudo-terminal failed.
    PtyIoError,
    /// A shell command gave no answer within its time bound.
    RpcTimeout,
    /// The request carries a value that cannot be used.
    BadInput,
}

/// An error of the gateway: its kind and the text shown to the client.
#[derive(Clone, Debug, PartialEq, Eq)]
pub struct GatewayError {
    pub kind: ErrorKind,
    pub message: String,
}

impl GatewayError {
    /// An error of the given kind with the given text.
    pub fn new(kind: ErrorKind, message: String) -> (e: GatewayError)
        ensures
            e.kind == kind,
            e.message == message,
    {
        GatewayError { kind, message }
    }
}

} // verus!
