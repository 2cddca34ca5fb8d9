//! Runtime decisions of a running peer: the `run_service` orchestration
//! that connects to a remote peer and elevates the fresh substream into a
//! service channel, and the policies for keeping a bearer link alive.
//!
//! The driver outside this crate owns the event loop. It starts a service
//! run with [`run_service_start`], performs each returned action (hand the
//! `ConnectToPeer` message and the bearer substream to the transport's
//! hole punch, send the service request, start the client service on the
//! session), and feeds back what it observes.

use vstd::prelude::*;

use crate::dispatcher::{
    request_message, service_request_step, spec_service_request_step, ServiceRequestEvent,
    ServiceRequestEventModel, ServiceRequestState,
};
use crate::error::Error;
use crate::protocol::{name_wf, ConnectionId, ControlMessage, MessageModel, PeerIdentity,
    ServiceName};
use crate::rendezvous::{
    rendezvous_step, spec_rendezvous_step, RendezvousEvent, RendezvousEventModel, RendezvousOutcome,
    RendezvousState,
};

verus! {

/// Where one `run_service` call stands.
///
/// `Rendezvous` drives the hole punch through the bearer; `Requesting`
/// has a direct substream and awaits the service handshake's answer;
/// `Running` has handed the session to the client service (terminal
/// success); `Failed` surfaced an error (terminal).
pub enum RunServiceState {
    Rendezvous { rendezvous: RendezvousState, name: ServiceName },
    Requesting,
    Running,
    Failed { error: Error },
}

/// Mathematical model of a `run_service` state.
pub enum RunServiceStateModel {
    Rendezvous { rendezvous: RendezvousState, name: Seq<u8> },
    Requesting,
    Running,
    Failed { error: Error },
}

impl View for RunServiceState {
    type V = RunServiceStateModel;

    open spec fn view(&self) -> RunServiceStateModel {
        match self {
            RunServiceState::Rendezvous { rendezvous, name } => RunServiceStateModel::Rendezvous {
                rendezvous: *rendezvous,
                name: name@,
            },
            RunServiceState::Requesting => RunServiceStateModel::Requesting,
            RunServiceState::Running => RunServiceStateModel::Running,
            RunServiceState::Failed { error } => RunServiceStateModel::Failed { error: *error },
        }
    }
}

/// Validity of a `run_service` state: the requested name is well formed.
pub open spec fn run_service_state_wf(m: RunServiceStateModel) -> bool {
    match m {
        RunServiceStateModel::Rendezvous { name, .. } => name_wf(name),
        _ => true,
    }
}

/// One thing the `run_service` driver observed.
pub enum RunServiceEvent {
    /// Something happened around the rendezvous: on the bearer substream
    /// or at the transport's hole punch.
    Rendezvous(RendezvousEvent),
    /// Something happened on the direct substream carrying the service
    /// request.
    Request(ServiceRequestEvent),
}

/// Mathematical model of a `run_service` event.
pub enum RunServiceEventModel {
    Rendezvous(RendezvousEventModel),
    Request(ServiceRequestEventModel),
}

impl View for RunServiceEvent {
    type V = RunServiceEventModel;

    open spec fn view(&self) -> RunServiceEventModel {
        match self {
            RunServiceEvent::Rendezvous(ev) => RunServiceEventModel::Rendezvous(ev@),
            RunServiceEvent::Request(ev) => RunServiceEventModel::Request(ev@),
        }
    }
}

/// What the `run_service` driver must do after a step.
pub enum RunServiceAction {
    /// Nothing: keep driving and feeding events.
    Continue,
    /// The rendezvous produced a direct substream: send this
    /// `RequestService` message on it.
    SendServiceRequest { message: ControlMessage },
    /// The handshake succeeded: build the streams session around the
    /// promoted substream and start the client service on it.
    StartService,
    /// The run failed: release the substreams and surface this error.
    Abort { error: Error },
}

/// Mathematical model of a `run_service` action.
pub enum RunServiceActionModel {
    Continue,
    SendServiceRequest { message: MessageModel },
    StartService,
    Abort { error: Error },
}

impl View for RunServiceAction {
    type V = RunServiceActionModel;

    open spec fn view(&self) -> RunServiceActionModel {
        match self {
            RunServiceAction::Continue => RunServiceActionModel::Continue,
            RunServiceAction::SendServiceRequest { message } => {
                RunServiceActionModel::SendServiceRequest { message: message@ }
            },
            RunServiceAction::StartService => RunServiceActionModel::StartService,
            RunServiceAction::Abort { error } => RunServiceActionModel::Abort { error: *error },
        }
    }
}

/// Opens a `run_service` call: the run starts waiting on the rendezvous
/// for the given connection id, and the returned `ConnectToPeer` message
/// is the signalling payload for the transport's hole punch on the bearer
/// substream.
pub fn run_service_start(
    target: PeerIdentity,
    connection_id: ConnectionId,
    name: ServiceName,
) -> (r: (RunServiceState, ControlMessage))
    requires
        target.wf(),
        name.wf(),
    ensures
        r.0@ == (RunServiceStateModel::Rendezvous {
            rendezvous: RendezvousState::Waiting { connection_id },
            name: name@,
        }),
        run_service_state_wf(r.0@),
        r.1@ == (MessageModel::ConnectToPeer { target: target@, connection_id }),
        r.1.wf(),
{
    (
        RunServiceState::Rendezvous {
            rendezvous: RendezvousState::Waiting { connection_id },
            name,
        },
        ControlMessage::ConnectToPeer { target, connection_id },
    )
}

/// The `run_service` transition function.
///
/// While the rendezvous runs, rendezvous events drive it: success moves
/// the run to the service handshake and sends `RequestService`; a failure
/// aborts the run with the rendezvous' typed error (`PeerUnreachable`,
/// `BearerConnectionLost`, or `Cancelled`). While the handshake runs, its
/// events drive it: promotion starts the service; a failure aborts with
/// the handshake's error. Events of the other phase are ignored, and the
/// two terminal states absorb everything.
pub open spec fn spec_run_service_step(
    state: RunServiceStateModel,
    ev: RunServiceEventModel,
) -> (RunServiceStateModel, RunServiceActionModel) {
    match state {
        RunServiceStateModel::Rendezvous { rendezvous, name } => match ev {
            RunServiceEventModel::Rendezvous(rev) => {
                match spec_rendezvous_step(rendezvous, rev) {
                    RendezvousState::Waiting { connection_id } => (
                        RunServiceStateModel::Rendezvous {
                            rendezvous: RendezvousState::Waiting { connection_id },
                            name,
                        },
                        RunServiceActionModel::Continue,
                    ),
                    RendezvousState::Resolved { outcome, .. } => match outcome {
                        RendezvousOutcome::Connected => (
                            RunServiceStateModel::Requesting,
                            RunServiceActionModel::SendServiceRequest {
                                message: MessageModel::RequestService { name },
                            },
                        ),
                        RendezvousOutcome::PeerUnreachable => (
                            RunServiceStateModel::Failed { error: Error::PeerUnreachable },
                            RunServiceActionModel::Abort { error: Error::PeerUnreachable },
                        ),
                        RendezvousOutcome::BearerLost => (
                            RunServiceStateModel::Failed { error: Error::BearerConnectionLost },
                            RunServiceActionModel::Abort { error: Error::BearerConnectionLost },
                        ),
                        RendezvousOutcome::Cancelled => (
                            RunServiceStateModel::Failed { error: Error::Cancelled },
                            RunServiceActionModel::Abort { error: Error::Cancelled },
                        ),
                    },
                }
            },
            RunServiceEventModel::Request(_) => (state, RunServiceActionModel::Continue),
        },
        RunServiceStateModel::Requesting => match ev {
            RunServiceEventModel::Request(qev) => {
                match spec_service_request_step(ServiceRequestState::AwaitingResponse, qev) {
                    ServiceRequestState::AwaitingResponse => (
                        RunServiceStateModel::Requesting,
                        RunServiceActionModel::Continue,
                    ),
                    ServiceRequestState::Promoted => (
                        RunServiceStateModel::Running,
                        RunServiceActionModel::StartService,
                    ),
                    ServiceRequestState::Failed { error } => (
                        RunServiceStateModel::Failed { error },
                        RunServiceActionModel::Abort { error },
                    ),
                }
            },
            RunServiceEventModel::Rendezvous(_) => (state, RunServiceActionModel::Continue),
        },
        RunServiceStateModel::Running => (state, RunServiceActionModel::Continue),
        RunServiceStateModel::Failed { .. } => (state, RunServiceActionModel::Continue),
    }
}

/// Runs one transition of a `run_service` call on one observed event.
pub fn run_service_step(state: RunServiceState, event: &RunServiceEvent) -> (r: (
    RunServiceState,
    RunServiceAction,
))
    requires
        run_service_state_wf(state@),
    ensures
        (r.0@, r.1@) == spec_run_service_step(state@, event@),
        run_service_state_wf(r.0@),
{
    match state {
        RunServiceState::Rendezvous { rendezvous, name } => match event {
            RunServiceEvent::Rendezvous(rev) => {
                let next = rendezvous_step(rendezvous, rev);
                match next {
                    RendezvousState::Waiting { .. } => (
                        RunServiceState::Rendezvous { rendezvous: next, name },
                        RunServiceAction::Continue,
                    ),
                    RendezvousState::Resolved { outcome, .. } => match outcome {
                        RendezvousOutcome::Connected => {
                            let message = request_message(name);
                            (RunServiceState::Requesting, RunServiceAction::SendServiceRequest {
                                message,
                            })
                        },
                        RendezvousOutcome::PeerUnreachable => (
                            RunServiceState::Failed { error: Error::PeerUnreachable },
                            RunServiceAction::Abort { error: Error::PeerUnreachable },
                        ),
                        RendezvousOutcome::BearerLost => (
                            RunServiceState::Failed { error: Error::BearerConnectionLost },
                            RunServiceAction::Abort { error: Error::BearerConnectionLost },
                        ),
                        RendezvousOutcome::Cancelled => (
                            RunServiceState::Failed { error: Error::Cancelled },
                            RunServiceAction::Abort { error: Error::Cancelled },
                        ),
                    },
                }
            },
            RunServiceEvent::Request(_) => (
                RunServiceState::Rendezvous { rendezvous, name },
                RunServiceAction::Continue,
            ),
        },
        RunServiceState::Requesting => match event {
            RunServiceEvent::Request(qev) => {
                let next = service_request_step(ServiceRequestState::AwaitingResponse, qev);
                match next {
                    ServiceRequestState::AwaitingResponse => (
                        RunServiceState::Requesting,
                        RunServiceAction::Continue,
                    ),
                    ServiceRequestState::Promoted => (
                        RunServiceState::Running,
                        RunServiceAction::StartService,
                    ),
                    ServiceRequestState::Failed { error } => (
                        RunServiceState::Failed { error },
                        RunServiceAction::Abort { error },
                    ),
                }
            },
            RunServiceEvent::Rendezvous(_) => (
                RunServiceState::Requesting,
                RunServiceAction::Continue,
            ),
        },
        RunServiceState::Running => (RunServiceState::Running, RunServiceAction::Continue),
        RunServiceState::Failed { error } => (
            RunServiceState::Failed { error },
            RunServiceAction::Continue,
        ),
    }
}

/// A `run_service` call settles at most once: once it runs or has failed,
/// no event changes it or makes it act. Together with the step function's
/// case split, each call resolves to exactly one terminal outcome.
pub proof fn lemma_run_service_settles_once(
    state: RunServiceStateModel,
    ev: RunServiceEventModel,
)
    requires
        state is Running || state is Failed,
    ensures
        spec_run_service_step(state, ev) == (state, RunServiceActionModel::Continue),
{
}

/// How long a peer waits before the next attempt to re-establish its
/// bearer link: 1 s, 2 s, 5 s, 10 s, then 30 s for every later attempt.
pub fn reconnect_backoff(attempt: u64) -> (secs: u64)
    ensures
        secs == (if attempt == 0 {
            1u64
        } else if attempt == 1 {
            2u64
        } else if attempt == 2 {
            5u64
        } else if attempt == 3 {
            10u64
        } else {
            30u64
        }),
{
    if attempt == 0 {
        1
    } else if attempt == 1 {
        2
    } else if attempt == 2 {
        5
    } else if attempt == 3 {
        10
    } else {
        30
    }
}

/// The bearer candidate to try after the current one: the next in the
/// configured list, wrapping around to the first — round-robin order.
pub fn next_bearer_index(current: usize, count: usize) -> (r: usize)
    requires
        count > 0,
        current < count,
    ensures
        r == (if current + 1 == count {
            0int
        } else {
            current + 1
        }),
        r < count,
{
    if current + 1 == count {
        0
    } else {
        current + 1
    }
}

} // verus!
