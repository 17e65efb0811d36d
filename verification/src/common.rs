//! Shared identifiers and fleet-wide signal values.

use vstd::prelude::*;

verus! {

/// Fleet-wide command state, held locally by every platform and switched by
/// the centre's signals.
#[derive(Debug, Copy, Clone, PartialEq, Eq, Structural)]
pub enum RunStatus {
    Start,
    Stop,
}

/// Opaque small-integer identity of one platform, unique for the lifetime of
/// a run.
#[derive(Copy, Clone, Debug, PartialEq, Eq, Hash, Structural)]
pub struct PlatformID(pub u32);

impl PlatformID {
    pub fn id(self) -> (r: u32)
        ensures
            r == self.0,
    {
        self.0
    }
}

/// Why a call to a peer failed.  Connection establishment and request
/// execution are distinguished from a worker that died before reporting.
#[derive(Debug, Copy, Clone, PartialEq, Eq, Structural)]
pub enum ClientError {
    /// Failed to establish a client connection to the peer.
    ConnectError,
    /// The peer rejected or failed the request.
    RequestError,
    /// The execution unit carrying the call terminated abnormally.
    ThreadPanicked,
}

} // verus!
