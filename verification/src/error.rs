use vstd::prelude::*;

verus! {

/// Why binding the endpoint failed.
#[derive(Clone, Copy, PartialEq, Eq, Structural, Debug)]
pub enum BindFailure {
    AddressInUse,
    PermissionDenied,
    Other,
}

/// The single failure value of bring-up and of the configuration store.
#[derive(Clone, Copy, PartialEq, Eq, Structural, Debug)]
pub enum SyncifyError {
    /// No configuration document exists where one is required.
    ConfigMissing,
    /// The configuration document exists but cannot be understood.
    ConfigCorrupt,
    /// Another instance holds the lock on the configuration document.
    ConfigLocked,
    /// The configuration document could not be written.
    ConfigUnwritable,
    /// The endpoint could not be bound.
    BindFailed(BindFailure),
    /// A protocol handler did not start; everything started before it was rolled back.
    HandlerStartFailed,
    /// The endpoint was closed from outside while the router was alive.
    EndpointLost,
}

/// Why a single inbound stream was turned away.
#[derive(Clone, Copy, PartialEq, Eq, Structural, Debug)]
pub enum StreamRejected {
    UnknownProtocol,
    HandlerBusy,
}

/// How a shutdown ended.
#[derive(Clone, Copy, PartialEq, Eq, Structural, Debug)]
pub enum Shutdown {
    Clean,
    Timeout,
}

} // verus!
