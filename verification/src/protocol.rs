//! The data carried by the control plane: peer identities, service names,
//! connection identifiers, and the tagged control messages exchanged on
//! not-yet-promoted substreams.

use vstd::prelude::*;

use crate::error::Error;

verus! {

/// Identifier that the initiator of a peer-to-peer connection generates to
/// correlate rendezvous messages with the eventual direct connection.
pub type ConnectionId = u64;

/// A peer identity is the cryptographic hash of the peer's public key:
/// a non-empty digest of at most 64 bytes.
pub open spec fn identity_wf(bytes: Seq<u8>) -> bool {
    1 <= bytes.len() <= 64
}

/// A service name is a short printable identifier: non-empty ASCII in the
/// printable range, at most 64 bytes.
pub open spec fn name_wf(bytes: Seq<u8>) -> bool {
    &&& 1 <= bytes.len() <= 64
    &&& forall|i: int| 0 <= i < bytes.len() ==> 0x20 <= #[trigger] bytes[i] <= 0x7e
}

/// The hash of a peer's public key; globally unique within a trust domain.
#[derive(Clone, Debug, PartialEq, Eq)]
pub struct PeerIdentity {
    bytes: Vec<u8>,
}

impl View for PeerIdentity {
    type V = Seq<u8>;

    closed spec fn view(&self) -> Seq<u8> {
        self.bytes@
    }
}

impl PeerIdentity {
    pub open spec fn wf(&self) -> bool {
        identity_wf(self@)
    }

    /// Wraps a public-key digest. Rejects an empty digest and one longer
    /// than 64 bytes.
    pub fn from_bytes(bytes: Vec<u8>) -> (r: Result<PeerIdentity, Error>)
        ensures
            r matches Ok(id) ==> id@ == bytes@ && id.wf(),
            r is Err <==> !identity_wf(bytes@),
            r matches Err(e) ==> e == Error::Configuration,
    {
        if bytes.len() < 1 || bytes.len() > 64 {
            Err(Error::Configuration)
        } else {
            Ok(PeerIdentity { bytes })
        }
    }

    /// The digest bytes.
    pub fn as_bytes(&self) -> (r: &Vec<u8>)
        ensures
            r@ == self@,
    {
        &self.bytes
    }
}

/// The name under which a peer registers and requests a service.
#[derive(Clone, Debug, PartialEq, Eq)]
pub struct ServiceName {
    bytes: Vec<u8>,
}

impl View for ServiceName {
    type V = Seq<u8>;

    closed spec fn view(&self) -> Seq<u8> {
        self.bytes@
    }
}

impl ServiceName {
    pub open spec fn wf(&self) -> bool {
        name_wf(self@)
    }

    /// Wraps a service name. Rejects an empty name, one longer than
    /// 64 bytes, and one holding a byte outside printable ASCII.
    pub fn from_bytes(bytes: Vec<u8>) -> (r: Result<ServiceName, Error>)
        ensures
            r matches Ok(n) ==> n@ == bytes@ && n.wf(),
            r is Err <==> !name_wf(bytes@),
            r matches Err(e) ==> e == Error::Configuration,
    {
        if bytes.len() < 1 || bytes.len() > 64 {
            return Err(Error::Configuration);
        }
        let mut i: usize = 0;
        while i < bytes.len()
            invariant
                0 <= i <= bytes.len(),
                forall|j: int| 0 <= j < i ==> 0x20 <= #[trigger] bytes@[j] <= 0x7e,
            decreases bytes.len() - i,
        {
            let b = bytes[i];
            if b < 0x20 || b > 0x7e {
                return Err(Error::Configuration);
            }
            i = i + 1;
        }
        Ok(ServiceName { bytes })
    }

    /// The name bytes.
    pub fn as_bytes(&self) -> (r: &Vec<u8>)
        ensures
            r@ == self@,
    {
        &self.bytes
    }
}

/// Mathematical model of a control message: the same variants over
/// sequences instead of vectors.
pub enum MessageModel {
    Hello,
    ConnectToPeer { target: Seq<u8>, connection_id: ConnectionId },
    PeerNotFound { connection_id: ConnectionId },
    RequestService { name: Seq<u8> },
    ServiceConnectionEstablished,
    ServiceNotFound,
}

/// Structural validity of a message model: its identity or name is
/// well formed.
pub open spec fn message_wf(m: MessageModel) -> bool {
    match m {
        MessageModel::Hello => true,
        MessageModel::ConnectToPeer { target, .. } => identity_wf(target),
        MessageModel::PeerNotFound { .. } => true,
        MessageModel::RequestService { name } => name_wf(name),
        MessageModel::ServiceConnectionEstablished => true,
        MessageModel::ServiceNotFound => true,
    }
}

/// A control message, exchanged on a substream until that substream is
/// promoted to a raw payload channel.
///
/// - `Hello` opens a control conversation; each side sends it once.
/// - `ConnectToPeer` travels initiator -> bearer -> responder and asks for
///   a rendezvous with the identified peer.
/// - `PeerNotFound` travels bearer -> initiator when the target of the
///   correlated rendezvous is unknown or unreachable.
/// - `RequestService` asks the responder to promote this substream into a
///   channel of the named service.
/// - `ServiceConnectionEstablished` and `ServiceNotFound` answer it.
#[derive(Clone, Debug, PartialEq, Eq)]
pub enum ControlMessage {
    Hello,
    ConnectToPeer { target: PeerIdentity, connection_id: ConnectionId },
    PeerNotFound { connection_id: ConnectionId },
    RequestService { name: ServiceName },
    ServiceConnectionEstablished,
    ServiceNotFound,
}

impl View for ControlMessage {
    type V = MessageModel;

    open spec fn view(&self) -> MessageModel {
        match self {
            ControlMessage::Hello => MessageModel::Hello,
            ControlMessage::ConnectToPeer { target, connection_id } => {
                MessageModel::ConnectToPeer {
                    target: target@,
                    connection_id: *connection_id,
                }
            },
            ControlMessage::PeerNotFound { connection_id } => {
                MessageModel::PeerNotFound { connection_id: *connection_id }
            },
            ControlMessage::RequestService { name } => {
                MessageModel::RequestService { name: name@ }
            },
            ControlMessage::ServiceConnectionEstablished => {
                MessageModel::ServiceConnectionEstablished
            },
            ControlMessage::ServiceNotFound => MessageModel::ServiceNotFound,
        }
    }
}

impl ControlMessage {
    pub open spec fn wf(&self) -> bool {
        message_wf(self@)
    }
}

} // verus!
