//! Rendezvous client: obtains a direct connection to a remote peer through
//! the bearer, and the allocator for the connection ids that correlate a
//! rendezvous with its outcome.
//!
//! The driver starts a hole punch at the transport with the `ConnectToPeer`
//! message from [`connect_request`] and the bearer substream as the
//! signalling channel, while watching that substream. Whatever happens
//! first — the direct connection, a `PeerNotFound` for this connection id,
//! the bearer closing, or the owner dropping the attempt — resolves the
//! rendezvous, and nothing can resolve it a second time.

use vstd::prelude::*;

use crate::error::Error;
use crate::protocol::{ConnectionId, ControlMessage, MessageModel, PeerIdentity};

verus! {

/// Hands out the connection ids an initiator uses to correlate rendezvous
/// messages. Ids count upward and are never reused within one process
/// lifetime.
pub struct ConnectionIdAllocator {
    next: u64,
}

impl View for ConnectionIdAllocator {
    type V = u64;

    closed spec fn view(&self) -> u64 {
        self.next
    }
}

impl ConnectionIdAllocator {
    /// A fresh allocator; the first id it hands out is 0.
    pub fn new() -> (r: ConnectionIdAllocator)
        ensures
            r@ == 0,
    {
        ConnectionIdAllocator { next: 0 }
    }

    /// Hands out the next connection id. Every id is strictly greater than
    /// every id handed out before it.
    pub fn generate(&mut self) -> (id: ConnectionId)
        requires
            old(self)@ < u64::MAX,
        ensures
            id == old(self)@,
            final(self)@ == old(self)@ + 1,
    {
        let id = self.next;
        self.next = self.next + 1;
        id
    }

    /// Hands out the next connection id, or nothing once the id space is
    /// exhausted. For callers that cannot rule the exhaustion out
    /// beforehand.
    pub fn try_generate(&mut self) -> (r: Option<ConnectionId>)
        ensures
            old(self)@ < u64::MAX ==> r == Some(old(self)@) && final(self)@ == old(self)@ + 1,
            old(self)@ == u64::MAX ==> r is None && final(self)@ == old(self)@,
    {
        if self.next < u64::MAX {
            let id = self.next;
            self.next = self.next + 1;
            Some(id)
        } else {
            None
        }
    }
}

/// Connection ids are never reused: an id handed out while the allocator's
/// counter then moved past it differs from every id the allocator hands
/// out afterwards, because the counter only grows.
pub proof fn lemma_connection_ids_distinct(
    earlier_id: ConnectionId,
    counter_after_earlier: u64,
    later_id: ConnectionId,
)
    requires
        earlier_id < counter_after_earlier,
        counter_after_earlier <= later_id,
    ensures
        earlier_id != later_id,
{
}

/// How a rendezvous ended.
#[derive(Clone, Copy, Debug, PartialEq, Eq, Structural)]
pub enum RendezvousOutcome {
    /// The transport produced a direct connection to the target.
    Connected,
    /// The bearer answered `PeerNotFound` for this connection id.
    PeerUnreachable,
    /// The bearer substream closed while the rendezvous was in flight.
    BearerLost,
    /// The owner dropped the attempt before it resolved.
    Cancelled,
}

/// A rendezvous in flight or resolved, correlated by its connection id.
#[derive(Clone, Copy, Debug, PartialEq, Eq, Structural)]
pub enum RendezvousState {
    Waiting { connection_id: ConnectionId },
    Resolved { connection_id: ConnectionId, outcome: RendezvousOutcome },
}

/// One thing the rendezvous driver observed.
pub enum RendezvousEvent {
    /// The transport's hole punch resolved to a direct connection.
    DirectConnectionReady,
    /// A recognized control message arrived on the bearer substream.
    BearerMessage(ControlMessage),
    /// A payload with an unrecognized tag arrived on the bearer substream.
    BearerMessageUnrecognized,
    /// The bearer substream closed.
    BearerClosed,
    /// The owner dropped the rendezvous.
    Dropped,
}

/// Mathematical model of a rendezvous event.
pub enum RendezvousEventModel {
    DirectConnectionReady,
    BearerMessage(MessageModel),
    BearerMessageUnrecognized,
    BearerClosed,
    Dropped,
}

impl View for RendezvousEvent {
    type V = RendezvousEventModel;

    open spec fn view(&self) -> RendezvousEventModel {
        match self {
            RendezvousEvent::DirectConnectionReady => RendezvousEventModel::DirectConnectionReady,
            RendezvousEvent::BearerMessage(m) => RendezvousEventModel::BearerMessage(m@),
            RendezvousEvent::BearerMessageUnrecognized => {
                RendezvousEventModel::BearerMessageUnrecognized
            },
            RendezvousEvent::BearerClosed => RendezvousEventModel::BearerClosed,
            RendezvousEvent::Dropped => RendezvousEventModel::Dropped,
        }
    }
}

/// The signalling payload that opens a rendezvous: `ConnectToPeer` with
/// the target's identity and the fresh connection id.
pub fn connect_request(target: PeerIdentity, connection_id: ConnectionId) -> (m: ControlMessage)
    ensures
        m@ == (MessageModel::ConnectToPeer { target: target@, connection_id }),
{
    ControlMessage::ConnectToPeer { target, connection_id }
}

/// The rendezvous transition function.
///
/// A waiting rendezvous resolves on the first of: a direct connection
/// (success), a `PeerNotFound` carrying its own connection id (peer
/// unreachable), the bearer closing (bearer lost), or being dropped
/// (cancelled). A `PeerNotFound` for a different connection id and every
/// other bearer message leave it waiting. A resolved rendezvous never
/// changes again.
pub open spec fn spec_rendezvous_step(
    state: RendezvousState,
    ev: RendezvousEventModel,
) -> RendezvousState {
    match state {
        RendezvousState::Resolved { .. } => state,
        RendezvousState::Waiting { connection_id } => match ev {
            RendezvousEventModel::DirectConnectionReady => RendezvousState::Resolved {
                connection_id,
                outcome: RendezvousOutcome::Connected,
            },
            RendezvousEventModel::BearerMessage(m) => {
                if m matches MessageModel::PeerNotFound { connection_id: reported } && reported
                    == connection_id {
                    RendezvousState::Resolved {
                        connection_id,
                        outcome: RendezvousOutcome::PeerUnreachable,
                    }
                } else {
                    state
                }
            },
            RendezvousEventModel::BearerMessageUnrecognized => state,
            RendezvousEventModel::BearerClosed => RendezvousState::Resolved {
                connection_id,
                outcome: RendezvousOutcome::BearerLost,
            },
            RendezvousEventModel::Dropped => RendezvousState::Resolved {
                connection_id,
                outcome: RendezvousOutcome::Cancelled,
            },
        },
    }
}

/// Runs one transition of a rendezvous on one observed event.
pub fn rendezvous_step(state: RendezvousState, event: &RendezvousEvent) -> (r: RendezvousState)
    ensures
        r == spec_rendezvous_step(state, event@),
{
    match state {
        RendezvousState::Resolved { .. } => state,
        RendezvousState::Waiting { connection_id } => match event {
            RendezvousEvent::DirectConnectionReady => RendezvousState::Resolved {
                connection_id,
                outcome: RendezvousOutcome::Connected,
            },
            RendezvousEvent::BearerMessage(m) => match m {
                ControlMessage::PeerNotFound { connection_id: reported } => {
                    if *reported == connection_id {
                        RendezvousState::Resolved {
                            connection_id,
                            outcome: RendezvousOutcome::PeerUnreachable,
                        }
                    } else {
                        state
                    }
                },
                _ => state,
            },
            RendezvousEvent::BearerMessageUnrecognized => state,
            RendezvousEvent::BearerClosed => RendezvousState::Resolved {
                connection_id,
                outcome: RendezvousOutcome::BearerLost,
            },
            RendezvousEvent::Dropped => RendezvousState::Resolved {
                connection_id,
                outcome: RendezvousOutcome::Cancelled,
            },
        },
    }
}

/// The typed error a failed rendezvous surfaces: `PeerUnreachable` when the
/// bearer reported the target unknown, `BearerConnectionLost` when the
/// bearer went away, `Cancelled` when the attempt was dropped; success
/// carries no error.
pub fn rendezvous_error(outcome: RendezvousOutcome) -> (r: Option<Error>)
    ensures
        outcome == RendezvousOutcome::Connected <==> r is None,
        outcome == RendezvousOutcome::PeerUnreachable ==> r == Some(Error::PeerUnreachable),
        outcome == RendezvousOutcome::BearerLost ==> r == Some(Error::BearerConnectionLost),
        outcome == RendezvousOutcome::Cancelled ==> r == Some(Error::Cancelled),
{
    match outcome {
        RendezvousOutcome::Connected => None,
        RendezvousOutcome::PeerUnreachable => Some(Error::PeerUnreachable),
        RendezvousOutcome::BearerLost => Some(Error::BearerConnectionLost),
        RendezvousOutcome::Cancelled => Some(Error::Cancelled),
    }
}

/// A rendezvous resolves at most once: whatever arrives after it resolved,
/// its connection id and outcome stand. Together with the step function's
/// case split this pins down exactly one terminal outcome per rendezvous.
pub proof fn lemma_rendezvous_resolves_once(state: RendezvousState, ev: RendezvousEventModel)
    requires
        state is Resolved,
    ensures
        spec_rendezvous_step(state, ev) == state,
{
}

/// A rendezvous never loses its connection id: stepping keeps the id it
/// was opened with.
pub proof fn lemma_rendezvous_keeps_id(state: RendezvousState, ev: RendezvousEventModel)
    ensures
        match (state, spec_rendezvous_step(state, ev)) {
            (
                RendezvousState::Waiting { connection_id: before },
                RendezvousState::Waiting { connection_id: after },
            ) => before == after,
            (
                RendezvousState::Waiting { connection_id: before },
                RendezvousState::Resolved { connection_id: after, .. },
            ) => before == after,
            (
                RendezvousState::Resolved { connection_id: before, .. },
                RendezvousState::Resolved { connection_id: after, .. },
            ) => before == after,
            _ => false,
        },
{
}

} // verus!
