use carrier::codec::encode_payload;
use carrier::context::PeerContext;
use carrier::dispatcher::{
    request_message, service_request_event_for_payload, service_request_step, ServiceRequestEvent,
    ServiceRequestState,
};
use carrier::error::Error;
use carrier::handler::{
    action_reply, handler_event_for_payload, handler_start, handler_step, HandlerAction,
    HandlerEvent, HandlerState,
};
use carrier::protocol::{ControlMessage, PeerIdentity, ServiceName};
use carrier::rendezvous::{
    connect_request, rendezvous_error, rendezvous_step, ConnectionIdAllocator, RendezvousEvent,
    RendezvousOutcome, RendezvousState,
};
use carrier::session::{SessionPoll, StreamsSession};

fn name(bytes: &[u8]) -> ServiceName {
    ServiceName::from_bytes(bytes.to_vec()).unwrap()
}

fn identity(bytes: &[u8]) -> PeerIdentity {
    PeerIdentity::from_bytes(bytes.to_vec()).unwrap()
}

fn echo_context() -> PeerContext<u32> {
    let mut ctx: PeerContext<u32> = PeerContext::new();
    ctx.register(name(b"echo"), 1);
    ctx
}

#[test]
fn registry_resolves_registered_names_only() {
    let ctx = echo_context();
    assert_eq!(ctx.lookup(&name(b"echo")), Some(&1));
    assert_eq!(ctx.lookup(&name(b"nonexistent")), None);
    assert_eq!(ctx.len(), 1);
}

#[test]
fn registry_overwrites_duplicates_last_wins() {
    let mut ctx: PeerContext<u32> = PeerContext::new();
    ctx.register(name(b"echo"), 1);
    ctx.register(name(b"other"), 2);
    ctx.register(name(b"echo"), 3);
    assert_eq!(ctx.lookup(&name(b"echo")), Some(&3));
    assert_eq!(ctx.lookup(&name(b"other")), Some(&2));
}

#[test]
fn handler_greets_first() {
    let (state, greeting) = handler_start();
    assert_eq!(state, HandlerState::Fresh);
    assert_eq!(greeting, ControlMessage::Hello);
}

#[test]
fn handler_advances_on_hello() {
    let ctx = echo_context();
    let (state, action) = handler_step(
        HandlerState::Fresh,
        HandlerEvent::Received(ControlMessage::Hello),
        &ctx,
    );
    assert_eq!(state, HandlerState::Greeted);
    assert!(matches!(action, HandlerAction::Ignore));
}

#[test]
fn handler_closes_on_request_before_greeting() {
    let ctx = echo_context();
    let (state, action) = handler_step(
        HandlerState::Fresh,
        HandlerEvent::Received(ControlMessage::RequestService { name: name(b"echo") }),
        &ctx,
    );
    assert_eq!(state, HandlerState::Closed);
    assert!(matches!(action, HandlerAction::CloseStream));
}

#[test]
fn registered_name_is_established_and_served() {
    let ctx = echo_context();
    let (state, action) = handler_step(
        HandlerState::Greeted,
        HandlerEvent::Received(ControlMessage::RequestService { name: name(b"echo") }),
        &ctx,
    );
    assert_eq!(state, HandlerState::Serving);
    match &action {
        HandlerAction::EstablishService { name } => {
            assert_eq!(name.as_bytes(), &b"echo".to_vec());
        }
        _ => panic!("expected the service to be established"),
    }
    assert_eq!(
        action_reply(&action),
        Some(ControlMessage::ServiceConnectionEstablished)
    );
}

#[test]
fn unregistered_name_is_rejected_and_conversation_goes_on() {
    let ctx = echo_context();
    let (state, action) = handler_step(
        HandlerState::Greeted,
        HandlerEvent::Received(ControlMessage::RequestService {
            name: name(b"nonexistent"),
        }),
        &ctx,
    );
    assert_eq!(state, HandlerState::Greeted);
    assert!(matches!(action, HandlerAction::RejectService));
    assert_eq!(action_reply(&action), Some(ControlMessage::ServiceNotFound));
}

#[test]
fn handler_forwards_peer_not_found() {
    let ctx = echo_context();
    let (state, action) = handler_step(
        HandlerState::Greeted,
        HandlerEvent::Received(ControlMessage::PeerNotFound { connection_id: 77 }),
        &ctx,
    );
    assert_eq!(state, HandlerState::Greeted);
    match action {
        HandlerAction::DeliverPeerNotFound { connection_id } => assert_eq!(connection_id, 77),
        _ => panic!("expected the signal to be delivered"),
    }
}

#[test]
fn handler_ignores_unrecognized_payloads() {
    let ctx = echo_context();
    let event = handler_event_for_payload(&[0x7f, 1, 2]);
    assert!(matches!(event, HandlerEvent::ReceivedUnrecognized));
    let (state, action) = handler_step(HandlerState::Greeted, event, &ctx);
    assert_eq!(state, HandlerState::Greeted);
    assert!(matches!(action, HandlerAction::Ignore));
}

#[test]
fn handler_closes_on_malformed_payload() {
    let ctx = echo_context();
    let event = handler_event_for_payload(&[]);
    assert!(matches!(event, HandlerEvent::ReceivedMalformed));
    let (state, action) = handler_step(HandlerState::Greeted, event, &ctx);
    assert_eq!(state, HandlerState::Closed);
    assert!(matches!(action, HandlerAction::CloseStream));
}

#[test]
fn handler_decodes_payload_into_event() {
    let ctx = echo_context();
    let payload = encode_payload(&ControlMessage::Hello);
    let event = handler_event_for_payload(&payload);
    let (state, _) = handler_step(HandlerState::Fresh, event, &ctx);
    assert_eq!(state, HandlerState::Greeted);
}

#[test]
fn promoted_handler_sends_no_further_control_messages() {
    let ctx = echo_context();
    let events = vec![
        HandlerEvent::Received(ControlMessage::Hello),
        HandlerEvent::Received(ControlMessage::RequestService { name: name(b"echo") }),
        HandlerEvent::Received(ControlMessage::ServiceNotFound),
        HandlerEvent::ReceivedUnrecognized,
        HandlerEvent::StreamClosed,
    ];
    for event in events {
        let (state, action) = handler_step(HandlerState::Serving, event, &ctx);
        assert_eq!(state, HandlerState::Serving);
        assert!(matches!(action, HandlerAction::Ignore));
        assert_eq!(action_reply(&action), None);
    }
}

#[test]
fn handler_closes_on_end_of_stream() {
    let ctx = echo_context();
    let (state, action) = handler_step(HandlerState::Greeted, HandlerEvent::StreamClosed, &ctx);
    assert_eq!(state, HandlerState::Closed);
    assert!(matches!(action, HandlerAction::CloseStream));
}

#[test]
fn connection_ids_count_up_and_never_repeat() {
    let mut ids = ConnectionIdAllocator::new();
    let a = ids.generate();
    let b = ids.generate();
    let c = ids.generate();
    assert_eq!((a, b, c), (0, 1, 2));
    assert_ne!(a, b);
    assert_ne!(b, c);
    assert_ne!(a, c);
}

#[test]
fn connect_request_carries_target_and_id() {
    let m = connect_request(identity(&[9; 32]), 41);
    assert_eq!(
        m,
        ControlMessage::ConnectToPeer {
            target: identity(&[9; 32]),
            connection_id: 41
        }
    );
}

#[test]
fn rendezvous_succeeds_on_direct_connection() {
    let s = RendezvousState::Waiting { connection_id: 1 };
    let s = rendezvous_step(s, &RendezvousEvent::DirectConnectionReady);
    assert_eq!(
        s,
        RendezvousState::Resolved {
            connection_id: 1,
            outcome: RendezvousOutcome::Connected
        }
    );
    assert_eq!(rendezvous_error(RendezvousOutcome::Connected), None);
}

#[test]
fn rendezvous_fails_on_matching_peer_not_found() {
    let s = RendezvousState::Waiting { connection_id: 8 };
    let s = rendezvous_step(
        s,
        &RendezvousEvent::BearerMessage(ControlMessage::PeerNotFound { connection_id: 8 }),
    );
    assert_eq!(
        s,
        RendezvousState::Resolved {
            connection_id: 8,
            outcome: RendezvousOutcome::PeerUnreachable
        }
    );
    assert_eq!(
        rendezvous_error(RendezvousOutcome::PeerUnreachable),
        Some(Error::PeerUnreachable)
    );
}

#[test]
fn rendezvous_ignores_other_connection_ids() {
    let s = RendezvousState::Waiting { connection_id: 8 };
    let s = rendezvous_step(
        s,
        &RendezvousEvent::BearerMessage(ControlMessage::PeerNotFound { connection_id: 9 }),
    );
    assert_eq!(s, RendezvousState::Waiting { connection_id: 8 });
}

#[test]
fn rendezvous_fails_when_bearer_closes() {
    let s = RendezvousState::Waiting { connection_id: 3 };
    let s = rendezvous_step(s, &RendezvousEvent::BearerClosed);
    assert_eq!(
        s,
        RendezvousState::Resolved {
            connection_id: 3,
            outcome: RendezvousOutcome::BearerLost
        }
    );
    assert_eq!(
        rendezvous_error(RendezvousOutcome::BearerLost),
        Some(Error::BearerConnectionLost)
    );
}

#[test]
fn rendezvous_resolves_exactly_once() {
    let resolved = RendezvousState::Resolved {
        connection_id: 5,
        outcome: RendezvousOutcome::Connected,
    };
    let later = vec![
        RendezvousEvent::DirectConnectionReady,
        RendezvousEvent::BearerMessage(ControlMessage::PeerNotFound { connection_id: 5 }),
        RendezvousEvent::BearerClosed,
        RendezvousEvent::Dropped,
    ];
    for event in &later {
        assert_eq!(rendezvous_step(resolved, event), resolved);
    }
}

#[test]
fn dropping_a_rendezvous_cancels_it() {
    let s = RendezvousState::Waiting { connection_id: 2 };
    let s = rendezvous_step(s, &RendezvousEvent::Dropped);
    assert_eq!(
        s,
        RendezvousState::Resolved {
            connection_id: 2,
            outcome: RendezvousOutcome::Cancelled
        }
    );
    assert_eq!(
        rendezvous_error(RendezvousOutcome::Cancelled),
        Some(Error::Cancelled)
    );
}

#[test]
fn service_request_opens_with_the_name() {
    assert_eq!(
        request_message(name(b"echo")),
        ControlMessage::RequestService { name: name(b"echo") }
    );
}

#[test]
fn service_request_promotes_on_established() {
    let s = service_request_step(
        ServiceRequestState::AwaitingResponse,
        &ServiceRequestEvent::Received(ControlMessage::ServiceConnectionEstablished),
    );
    assert_eq!(s, ServiceRequestState::Promoted);
}

#[test]
fn service_request_fails_on_service_not_found() {
    let s = service_request_step(
        ServiceRequestState::AwaitingResponse,
        &ServiceRequestEvent::Received(ControlMessage::ServiceNotFound),
    );
    assert_eq!(
        s,
        ServiceRequestState::Failed {
            error: Error::ServiceNotFound
        }
    );
}

#[test]
fn service_request_fails_when_stream_closes() {
    let s = service_request_step(
        ServiceRequestState::AwaitingResponse,
        &ServiceRequestEvent::StreamClosed,
    );
    assert_eq!(
        s,
        ServiceRequestState::Failed {
            error: Error::ConnectionClosed
        }
    );
}

#[test]
fn service_request_ignores_unrelated_messages() {
    let s = service_request_step(
        ServiceRequestState::AwaitingResponse,
        &ServiceRequestEvent::Received(ControlMessage::Hello),
    );
    assert_eq!(s, ServiceRequestState::AwaitingResponse);
    let s = service_request_step(s, &ServiceRequestEvent::ReceivedUnrecognized);
    assert_eq!(s, ServiceRequestState::AwaitingResponse);
}

#[test]
fn service_request_settles_once() {
    let settled = ServiceRequestState::Failed {
        error: Error::ServiceNotFound,
    };
    let s = service_request_step(
        settled,
        &ServiceRequestEvent::Received(ControlMessage::ServiceConnectionEstablished),
    );
    assert_eq!(s, settled);
}

#[test]
fn service_request_fails_on_malformed_payload() {
    let event = service_request_event_for_payload(&[6, 0]);
    assert!(matches!(event, ServiceRequestEvent::ReceivedMalformed));
    let s = service_request_step(ServiceRequestState::AwaitingResponse, &event);
    assert_eq!(
        s,
        ServiceRequestState::Failed {
            error: Error::ProtocolViolation
        }
    );
}

#[test]
fn session_delivers_substreams_in_order() {
    let mut session = StreamsSession::new();
    session.deliver(10);
    session.deliver(11);
    session.deliver(12);
    assert_eq!(session.poll_incoming(), SessionPoll::Ready { substream: 10 });
    assert_eq!(session.poll_incoming(), SessionPoll::Ready { substream: 11 });
    assert_eq!(session.poll_incoming(), SessionPoll::Ready { substream: 12 });
    assert_eq!(session.poll_incoming(), SessionPoll::Pending);
}

#[test]
fn session_end_is_reported_after_the_backlog() {
    let mut session = StreamsSession::new();
    session.deliver(1);
    session.close();
    assert_eq!(session.poll_incoming(), SessionPoll::Ready { substream: 1 });
    assert_eq!(session.poll_incoming(), SessionPoll::Ended);
    assert_eq!(session.poll_incoming(), SessionPoll::Ended);
}

#[test]
fn opening_after_session_end_fails_with_connection_closed() {
    let mut session = StreamsSession::new();
    assert_eq!(session.check_open(), Ok(()));
    session.close();
    assert_eq!(session.check_open(), Err(Error::ConnectionClosed));
}

#[test]
fn a_thousand_connection_ids_never_collide() {
    let mut ids = ConnectionIdAllocator::new();
    let mut seen = Vec::new();
    for _ in 0..1000 {
        seen.push(ids.try_generate().unwrap());
    }
    let mut sorted = seen.clone();
    sorted.sort_unstable();
    sorted.dedup();
    assert_eq!(sorted.len(), 1000);
}
