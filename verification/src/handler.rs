//! Per-substream connection handler: the state machine that greets the
//! other side, dispatches service requests against the local registry, and
//! forwards rendezvous failure signals.
//!
//! The handler owns one not-yet-promoted substream. Its driver decodes one
//! control message at a time, feeds it in as an event, performs the returned
//! action (flushing any reply before consuming the next message), and stops
//! when the handler reaches a terminal state. On a service hit the substream
//! is promoted and moved out to the server; the handler is then done.

use vstd::prelude::*;

use crate::context::PeerContext;
use crate::protocol::{ConnectionId, ControlMessage, MessageModel, ServiceName};

verus! {

/// Where a handler stands in its control conversation.
///
/// `Fresh` has greeted but not been greeted; `Greeted` dispatches requests;
/// `Serving` has promoted its substream and handed it to a server (terminal
/// success); `Closed` has released the substream (end of stream, transport
/// failure, or a message that the state forbids).
#[derive(Clone, Copy, Debug, PartialEq, Eq, Structural)]
pub enum HandlerState {
    Fresh,
    Greeted,
    Serving,
    Closed,
}

/// One thing that happened on the handler's substream.
pub enum HandlerEvent {
    /// A recognized control message arrived.
    Received(ControlMessage),
    /// A payload with an unrecognized tag arrived; forward compatibility
    /// asks that it be ignored.
    ReceivedUnrecognized,
    /// A payload with a known tag but a malformed body arrived: a protocol
    /// violation.
    ReceivedMalformed,
    /// The substream reached end of stream.
    StreamClosed,
    /// The transport reported an error on the substream.
    TransportFailed,
}

/// Mathematical model of a handler event.
pub enum HandlerEventModel {
    Received(MessageModel),
    ReceivedUnrecognized,
    ReceivedMalformed,
    StreamClosed,
    TransportFailed,
}

impl View for HandlerEvent {
    type V = HandlerEventModel;

    open spec fn view(&self) -> HandlerEventModel {
        match self {
            HandlerEvent::Received(m) => HandlerEventModel::Received(m@),
            HandlerEvent::ReceivedUnrecognized => HandlerEventModel::ReceivedUnrecognized,
            HandlerEvent::ReceivedMalformed => HandlerEventModel::ReceivedMalformed,
            HandlerEvent::StreamClosed => HandlerEventModel::StreamClosed,
            HandlerEvent::TransportFailed => HandlerEventModel::TransportFailed,
        }
    }
}

/// What the handler's driver must do after a step.
pub enum HandlerAction {
    /// Nothing: the event was absorbed.
    Ignore,
    /// Send `ServiceConnectionEstablished`, promote the substream to raw
    /// payload mode, and hand it to the named service's server.
    EstablishService { name: ServiceName },
    /// Send `ServiceNotFound`; the conversation continues.
    RejectService,
    /// Wake the rendezvous client waiting on this connection id and fail
    /// it with `PeerUnreachable`.
    DeliverPeerNotFound { connection_id: ConnectionId },
    /// Close the substream and release everything the handler owns.
    CloseStream,
}

/// Mathematical model of a handler action.
pub enum HandlerActionModel {
    Ignore,
    EstablishService { name: Seq<u8> },
    RejectService,
    DeliverPeerNotFound { connection_id: ConnectionId },
    CloseStream,
}

impl View for HandlerAction {
    type V = HandlerActionModel;

    open spec fn view(&self) -> HandlerActionModel {
        match self {
            HandlerAction::Ignore => HandlerActionModel::Ignore,
            HandlerAction::EstablishService { name } => HandlerActionModel::EstablishService {
                name: name@,
            },
            HandlerAction::RejectService => HandlerActionModel::RejectService,
            HandlerAction::DeliverPeerNotFound { connection_id } => {
                HandlerActionModel::DeliverPeerNotFound { connection_id: *connection_id }
            },
            HandlerAction::CloseStream => HandlerActionModel::CloseStream,
        }
    }
}

/// The handler's transition function.
///
/// - end of stream or a transport failure closes the handler from any
///   live state;
/// - `Fresh` advances to `Greeted` on `Hello`; a recognized message other
///   than `Hello` before the greeting is a protocol violation and closes
///   the substream; an unrecognized payload is ignored; a malformed
///   payload is a protocol violation and closes the substream in any
///   live state;
/// - `Greeted` answers `RequestService` from the registry (hit: promote
///   and serve, terminal; miss: reject and stay), forwards `PeerNotFound`
///   to the rendezvous client waiting on its connection id, and ignores
///   every other message;
/// - `Serving` and `Closed` are terminal: no event changes them and no
///   event makes them act.
pub open spec fn spec_handler_step<S>(
    state: HandlerState,
    ev: HandlerEventModel,
    ctx: PeerContext<S>,
) -> (HandlerState, HandlerActionModel) {
    match state {
        HandlerState::Serving => (HandlerState::Serving, HandlerActionModel::Ignore),
        HandlerState::Closed => (HandlerState::Closed, HandlerActionModel::Ignore),
        HandlerState::Fresh => match ev {
            HandlerEventModel::Received(MessageModel::Hello) => (
                HandlerState::Greeted,
                HandlerActionModel::Ignore,
            ),
            HandlerEventModel::Received(_) => (
                HandlerState::Closed,
                HandlerActionModel::CloseStream,
            ),
            HandlerEventModel::ReceivedUnrecognized => (
                HandlerState::Fresh,
                HandlerActionModel::Ignore,
            ),
            HandlerEventModel::ReceivedMalformed => (
                HandlerState::Closed,
                HandlerActionModel::CloseStream,
            ),
            HandlerEventModel::StreamClosed => (
                HandlerState::Closed,
                HandlerActionModel::CloseStream,
            ),
            HandlerEventModel::TransportFailed => (
                HandlerState::Closed,
                HandlerActionModel::CloseStream,
            ),
        },
        HandlerState::Greeted => match ev {
            HandlerEventModel::Received(MessageModel::RequestService { name }) => {
                if ctx.spec_lookup(name) is Some {
                    (HandlerState::Serving, HandlerActionModel::EstablishService { name })
                } else {
                    (HandlerState::Greeted, HandlerActionModel::RejectService)
                }
            },
            HandlerEventModel::Received(MessageModel::PeerNotFound { connection_id }) => (
                HandlerState::Greeted,
                HandlerActionModel::DeliverPeerNotFound { connection_id },
            ),
            HandlerEventModel::Received(_) => (HandlerState::Greeted, HandlerActionModel::Ignore),
            HandlerEventModel::ReceivedUnrecognized => (
                HandlerState::Greeted,
                HandlerActionModel::Ignore,
            ),
            HandlerEventModel::ReceivedMalformed => (
                HandlerState::Closed,
                HandlerActionModel::CloseStream,
            ),
            HandlerEventModel::StreamClosed => (
                HandlerState::Closed,
                HandlerActionModel::CloseStream,
            ),
            HandlerEventModel::TransportFailed => (
                HandlerState::Closed,
                HandlerActionModel::CloseStream,
            ),
        },
    }
}

/// A handler's opening move: it starts `Fresh` and sends `Hello` first,
/// before consuming anything.
pub fn handler_start() -> (r: (HandlerState, ControlMessage))
    ensures
        r.0 == HandlerState::Fresh,
        r.1@ == MessageModel::Hello,
        r.1.wf(),
{
    (HandlerState::Fresh, ControlMessage::Hello)
}

/// Runs one transition of the handler on one event, against the local
/// service registry.
pub fn handler_step<S>(state: HandlerState, event: HandlerEvent, ctx: &PeerContext<S>) -> (r: (
    HandlerState,
    HandlerAction,
))
    ensures
        (r.0, r.1@) == spec_handler_step(state, event@, *ctx),
{
    match state {
        HandlerState::Serving => (HandlerState::Serving, HandlerAction::Ignore),
        HandlerState::Closed => (HandlerState::Closed, HandlerAction::Ignore),
        HandlerState::Fresh => match event {
            HandlerEvent::Received(ControlMessage::Hello) => (
                HandlerState::Greeted,
                HandlerAction::Ignore,
            ),
            HandlerEvent::Received(_) => (HandlerState::Closed, HandlerAction::CloseStream),
            HandlerEvent::ReceivedUnrecognized => (HandlerState::Fresh, HandlerAction::Ignore),
            HandlerEvent::ReceivedMalformed => (HandlerState::Closed, HandlerAction::CloseStream),
            HandlerEvent::StreamClosed => (HandlerState::Closed, HandlerAction::CloseStream),
            HandlerEvent::TransportFailed => (HandlerState::Closed, HandlerAction::CloseStream),
        },
        HandlerState::Greeted => match event {
            HandlerEvent::Received(ControlMessage::RequestService { name }) => {
                if lookup_hit(ctx, &name) {
                    (HandlerState::Serving, HandlerAction::EstablishService { name })
                } else {
                    (HandlerState::Greeted, HandlerAction::RejectService)
                }
            },
            HandlerEvent::Received(ControlMessage::PeerNotFound { connection_id }) => (
                HandlerState::Greeted,
                HandlerAction::DeliverPeerNotFound { connection_id },
            ),
            HandlerEvent::Received(_) => (HandlerState::Greeted, HandlerAction::Ignore),
            HandlerEvent::ReceivedUnrecognized => (HandlerState::Greeted, HandlerAction::Ignore),
            HandlerEvent::ReceivedMalformed => (HandlerState::Closed, HandlerAction::CloseStream),
            HandlerEvent::StreamClosed => (HandlerState::Closed, HandlerAction::CloseStream),
            HandlerEvent::TransportFailed => (HandlerState::Closed, HandlerAction::CloseStream),
        },
    }
}

/// Whether the registry resolves the name.
fn lookup_hit<S>(ctx: &PeerContext<S>, name: &ServiceName) -> (r: bool)
    ensures
        r == (ctx.spec_lookup(name@) is Some),
{
    match ctx.lookup(name) {
        Some(_) => true,
        None => false,
    }
}

/// The control message that an action answers with, if any: a service hit
/// is confirmed with `ServiceConnectionEstablished`, a miss with
/// `ServiceNotFound`; no other action sends anything.
pub fn action_reply(action: &HandlerAction) -> (r: Option<ControlMessage>)
    ensures
        action is EstablishService ==> (r matches Some(m) && m@
            == MessageModel::ServiceConnectionEstablished),
        action is RejectService ==> (r matches Some(m) && m@ == MessageModel::ServiceNotFound),
        !(action is EstablishService) && !(action is RejectService) ==> r is None,
        r matches Some(m) ==> m.wf(),
{
    match action {
        HandlerAction::EstablishService { .. } => Some(
            ControlMessage::ServiceConnectionEstablished,
        ),
        HandlerAction::RejectService => Some(ControlMessage::ServiceNotFound),
        _ => None,
    }
}

/// A request for a registered name is always answered with
/// `ServiceConnectionEstablished` and served; a request for an
/// unregistered name is always answered with `ServiceNotFound`, and the
/// conversation goes on.
pub proof fn lemma_request_service_answer<S>(ctx: PeerContext<S>, name: Seq<u8>)
    ensures
        ctx.spec_lookup(name) is Some ==> spec_handler_step(
            HandlerState::Greeted,
            HandlerEventModel::Received(MessageModel::RequestService { name }),
            ctx,
        ) == (HandlerState::Serving, HandlerActionModel::EstablishService { name }),
        ctx.spec_lookup(name) is None ==> spec_handler_step(
            HandlerState::Greeted,
            HandlerEventModel::Received(MessageModel::RequestService { name }),
            ctx,
        ) == (HandlerState::Greeted, HandlerActionModel::RejectService),
{
}

/// Once a substream is promoted (the handler serves) or closed, the
/// handler is silent: no later event changes its state or makes it send
/// or act. In particular no control message follows a promotion.
pub proof fn lemma_terminal_states_silent<S>(
    state: HandlerState,
    ev: HandlerEventModel,
    ctx: PeerContext<S>,
)
    requires
        state == HandlerState::Serving || state == HandlerState::Closed,
    ensures
        spec_handler_step(state, ev, ctx) == (state, HandlerActionModel::Ignore),
{
}

/// Classifies one received framed payload into the handler's event: a
/// recognized message, an unrecognized tag to be ignored, or a malformed
/// body (a protocol violation).
pub fn handler_event_for_payload(bytes: &[u8]) -> (ev: HandlerEvent)
    ensures
        crate::codec::spec_decode_payload(bytes@) matches crate::codec::DecodeOutcome::Control(mm)
            ==> (ev@ matches HandlerEventModel::Received(m) && m == mm),
        crate::codec::spec_decode_payload(bytes@) is Unrecognized ==> ev@
            == HandlerEventModel::ReceivedUnrecognized,
        crate::codec::spec_decode_payload(bytes@) is Malformed ==> ev@
            == HandlerEventModel::ReceivedMalformed,
{
    match crate::codec::decode_payload(bytes) {
        Ok(Some(m)) => HandlerEvent::Received(m),
        Ok(None) => HandlerEvent::ReceivedUnrecognized,
        Err(_) => HandlerEvent::ReceivedMalformed,
    }
}

} // verus!
