//! Client side of the service-request handshake: turns a freshly opened
//! direct substream into a negotiated service channel.
//!
//! The driver first sends the `RequestService` message from
//! [`request_message`], then feeds in what it reads until the request is
//! promoted or failed. `ServiceConnectionEstablished` promotes the
//! substream to raw payload mode; `ServiceNotFound` fails the call; the
//! substream closing first fails it with `ConnectionClosed`; anything else
//! is ignored for forward compatibility.

use vstd::prelude::*;

use crate::error::Error;
use crate::protocol::{ControlMessage, MessageModel, ServiceName};

verus! {

/// Where a service request stands.
///
/// `AwaitingResponse` has sent `RequestService` and reads the substream;
/// `Promoted` and `Failed` are terminal: the substream has either become a
/// payload channel or been given up.
#[derive(Clone, Copy, Debug, PartialEq, Eq, Structural)]
pub enum ServiceRequestState {
    AwaitingResponse,
    Promoted,
    Failed { error: Error },
}

/// One thing that happened on the substream carrying the request.
pub enum ServiceRequestEvent {
    /// A recognized control message arrived.
    Received(ControlMessage),
    /// A payload with an unrecognized tag arrived; ignored.
    ReceivedUnrecognized,
    /// A payload with a known tag but a malformed body arrived: a protocol
    /// violation.
    ReceivedMalformed,
    /// The substream closed before a response settled the request.
    StreamClosed,
}

/// Mathematical model of a service-request event.
pub enum ServiceRequestEventModel {
    Received(MessageModel),
    ReceivedUnrecognized,
    ReceivedMalformed,
    StreamClosed,
}

impl View for ServiceRequestEvent {
    type V = ServiceRequestEventModel;

    open spec fn view(&self) -> ServiceRequestEventModel {
        match self {
            ServiceRequestEvent::Received(m) => ServiceRequestEventModel::Received(m@),
            ServiceRequestEvent::ReceivedUnrecognized => {
                ServiceRequestEventModel::ReceivedUnrecognized
            },
            ServiceRequestEvent::ReceivedMalformed => ServiceRequestEventModel::ReceivedMalformed,
            ServiceRequestEvent::StreamClosed => ServiceRequestEventModel::StreamClosed,
        }
    }
}

/// The message that opens the handshake: `RequestService` with the wanted
/// name.
pub fn request_message(name: ServiceName) -> (m: ControlMessage)
    requires
        name.wf(),
    ensures
        m@ == (MessageModel::RequestService { name: name@ }),
        m.wf(),
{
    ControlMessage::RequestService { name }
}

/// The service request's transition function.
///
/// An awaiting request is settled by the first of:
/// `ServiceConnectionEstablished` (promoted),
/// `ServiceNotFound` (failed with `ServiceNotFound`), a malformed payload
/// (failed with `ProtocolViolation`), or the substream closing (failed
/// with `ConnectionClosed`). Every other message is ignored. A settled
/// request never changes again.
pub open spec fn spec_service_request_step(
    state: ServiceRequestState,
    ev: ServiceRequestEventModel,
) -> ServiceRequestState {
    match state {
        ServiceRequestState::Promoted => state,
        ServiceRequestState::Failed { .. } => state,
        ServiceRequestState::AwaitingResponse => match ev {
            ServiceRequestEventModel::Received(MessageModel::ServiceConnectionEstablished) => {
                ServiceRequestState::Promoted
            },
            ServiceRequestEventModel::Received(MessageModel::ServiceNotFound) => {
                ServiceRequestState::Failed { error: Error::ServiceNotFound }
            },
            ServiceRequestEventModel::Received(_) => state,
            ServiceRequestEventModel::ReceivedUnrecognized => state,
            ServiceRequestEventModel::ReceivedMalformed => ServiceRequestState::Failed {
                error: Error::ProtocolViolation,
            },
            ServiceRequestEventModel::StreamClosed => ServiceRequestState::Failed {
                error: Error::ConnectionClosed,
            },
        },
    }
}

/// Runs one transition of the service request on one observed event.
pub fn service_request_step(state: ServiceRequestState, event: &ServiceRequestEvent) -> (r:
    ServiceRequestState)
    ensures
        r == spec_service_request_step(state, event@),
{
    match state {
        ServiceRequestState::Promoted => state,
        ServiceRequestState::Failed { .. } => state,
        ServiceRequestState::AwaitingResponse => match event {
            ServiceRequestEvent::Received(ControlMessage::ServiceConnectionEstablished) => {
                ServiceRequestState::Promoted
            },
            ServiceRequestEvent::Received(ControlMessage::ServiceNotFound) => {
                ServiceRequestState::Failed { error: Error::ServiceNotFound }
            },
            ServiceRequestEvent::Received(_) => state,
            ServiceRequestEvent::ReceivedUnrecognized => state,
            ServiceRequestEvent::ReceivedMalformed => ServiceRequestState::Failed {
                error: Error::ProtocolViolation,
            },
            ServiceRequestEvent::StreamClosed => ServiceRequestState::Failed {
                error: Error::ConnectionClosed,
            },
        },
    }
}

/// A settled service request stays settled: no later event changes a
/// promoted or failed request.
pub proof fn lemma_service_request_settles_once(
    state: ServiceRequestState,
    ev: ServiceRequestEventModel,
)
    requires
        state is Promoted || state is Failed,
    ensures
        spec_service_request_step(state, ev) == state,
{
}

/// The handshake's two answers decide the request: the response to a
/// registered name promotes it, the response to an unregistered name fails
/// it with `ServiceNotFound`, and nothing else settles it while the
/// substream stays open.
pub proof fn lemma_response_decides(ev: ServiceRequestEventModel)
    ensures
        spec_service_request_step(ServiceRequestState::AwaitingResponse, ev)
            == ServiceRequestState::Promoted <==> ev == ServiceRequestEventModel::Received(
            MessageModel::ServiceConnectionEstablished,
        ),
        spec_service_request_step(ServiceRequestState::AwaitingResponse, ev)
            == (ServiceRequestState::Failed { error: Error::ServiceNotFound })
            <==> ev == ServiceRequestEventModel::Received(MessageModel::ServiceNotFound),
        spec_service_request_step(ServiceRequestState::AwaitingResponse, ev)
            == (ServiceRequestState::Failed { error: Error::ConnectionClosed })
            <==> ev == ServiceRequestEventModel::StreamClosed,
{
}

/// Classifies one received framed payload into the request's event: a
/// recognized message, an unrecognized tag to be ignored, or a malformed
/// body (a protocol violation).
pub fn service_request_event_for_payload(bytes: &[u8]) -> (ev: ServiceRequestEvent)
    ensures
        crate::codec::spec_decode_payload(bytes@) matches crate::codec::DecodeOutcome::Control(mm)
            ==> (ev@ matches ServiceRequestEventModel::Received(m) && m == mm),
        crate::codec::spec_decode_payload(bytes@) is Unrecognized ==> ev@
            == ServiceRequestEventModel::ReceivedUnrecognized,
        crate::codec::spec_decode_payload(bytes@) is Malformed ==> ev@
            == ServiceRequestEventModel::ReceivedMalformed,
{
    match crate::codec::decode_payload(bytes) {
        Ok(Some(m)) => ServiceRequestEvent::Received(m),
        Ok(None) => ServiceRequestEvent::ReceivedUnrecognized,
        Err(_) => ServiceRequestEvent::ReceivedMalformed,
    }
}

} // verus!
