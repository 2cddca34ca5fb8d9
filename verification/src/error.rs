//! Error taxonomy of the fabric's control plane.

use vstd::prelude::*;

verus! {

/// What can go wrong while building a peer, talking to a bearer, or
/// negotiating a service channel.
#[derive(Clone, Copy, Debug, PartialEq, Eq, Structural)]
pub enum Error {
    /// A required configuration item is missing or malformed.
    Configuration,
    /// The underlying transport failed (handshake, unreachable address,
    /// dropped connection).
    Transport,
    /// A control message arrived in a state that forbids it.
    ProtocolViolation,
    /// The bearer reported that the target peer is unknown or unreachable,
    /// or the rendezvous timed out.
    PeerUnreachable,
    /// The remote peer has no service registered under the requested name.
    ServiceNotFound,
    /// The bearer substream closed while a dependent operation was waiting
    /// on it.
    BearerConnectionLost,
    /// The substream or its parent connection closed while an operation on
    /// it was still in progress.
    ConnectionClosed,
    /// The operation's owner dropped it before it completed.
    Cancelled,
}

} // verus!
