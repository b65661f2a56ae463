use vstd::prelude::*;

verus! {

/// Why a discovery pass, or one device session inside it, failed.
#[derive(Clone, Copy, Debug, PartialEq, Eq, Structural)]
pub enum DiscoveryError {
    /// No radio could be acquired.
    AdapterUnavailable,
    /// The radio refused to start scanning.
    ScanStartFailure,
    /// The device could not be connected.
    ConnectionFailure,
    /// The device's services and characteristics could not be discovered.
    ServiceDiscoveryFailure,
    /// The device advertises no display name.
    MissingName,
    /// The sensor characteristic is absent, unreadable or shorter than eight bytes.
    MalformedPayload,
    /// An operation was reported in a state where the protocol does not allow it.
    InvalidState,
}

} // verus!
