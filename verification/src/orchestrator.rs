//! The negotiation state machine. One orchestrator owns the connection and
//! channel of the current negotiation attempt, consumes every outside event
//! through a single transition function, and answers with the one action the
//! application must perform: create a transport, export a blob, apply a
//! remote descriptor, report a status or fault, or deliver a message. Every
//! error is terminal for the attempt; recovery means discarding the pair and
//! selecting a role again from idle.

use vstd::prelude::*;

use crate::channel::{ChannelManager, ChannelNotOpenError, ChannelReadyState};
use crate::codec::DecodeError;
use crate::descriptor::{
    descriptor_blob_spec, parse_blob_error_spec, parse_blob_spec, ConnectionDescriptor,
    DescriptorKind, DescriptorModel,
};
use crate::gatherer::{PathEvent, PathGatherer};

verus! {

/// Which side of the negotiation this endpoint plays.
#[derive(Clone, Copy, Debug, PartialEq, Eq, Structural)]
pub enum Role {
    Initiator,
    Responder,
}

/// The logical state of one negotiation attempt. The initiator walks
/// `Idle → CreatingOffer → AwaitingPathGathering → OfferReady →
/// AwaitingRemoteAnswer → Connected | Failed`; the responder walks
/// `Idle → AwaitingRemoteOffer → CreatingAnswer → AwaitingPathGathering →
/// AnswerReady → Connected | Failed`.
#[derive(Clone, Copy, Debug, PartialEq, Eq, Structural)]
pub enum NegotiationState {
    Idle,
    CreatingOffer,
    AwaitingPathGathering,
    OfferReady,
    AwaitingRemoteAnswer,
    AwaitingRemoteOffer,
    CreatingAnswer,
    AnswerReady,
    Connected,
    Failed,
}

/// The transport's connection state, surfaced verbatim as a status string.
#[derive(Clone, Copy, Debug, PartialEq, Eq, Structural)]
pub enum TransportState {
    New,
    Connecting,
    Connected,
    Disconnected,
    Failed,
    Closed,
}

/// A terminal error of the current negotiation attempt.
#[derive(Clone, Copy, Debug, PartialEq, Eq, Structural)]
pub enum Fault {
    /// The pasted blob was malformed.
    Decode(DecodeError),
    /// A decoded descriptor's kind was unexpected for the current state,
    /// such as an offer arriving while an answer was awaited.
    Protocol,
    /// The transport rejected descriptor creation or application, or path
    /// discovery failed.
    Negotiation,
}

/// The status line each fault surfaces as.
pub open spec fn fault_label_spec(f: Fault) -> Seq<char> {
    match f {
        Fault::Decode(e) => crate::codec::decode_error_label_spec(e),
        Fault::Protocol => "unexpected descriptor kind for the current state"@,
        Fault::Negotiation => "the transport rejected the negotiation step"@,
    }
}

impl Fault {
    /// The status line this fault surfaces as, for the status reporter.
    pub fn label(&self) -> (label: &'static str)
        ensures
            label@ == fault_label_spec(*self),
    {
        match self {
            Fault::Decode(e) => e.label(),
            Fault::Protocol => "unexpected descriptor kind for the current state",
            Fault::Negotiation => "the transport rejected the negotiation step",
        }
    }
}

/// One negotiation attempt's connection, together with the channel it owns.
pub struct Connection {
    pub role: Role,
    pub local_descriptor: Option<ConnectionDescriptor>,
    pub remote_descriptor: Option<ConnectionDescriptor>,
    pub gatherer: PathGatherer,
    /// Whether the local descriptor's one-time blob export has happened.
    pub exported: bool,
    pub transport: TransportState,
    pub channel: Option<ChannelManager>,
}

/// The mathematical value of a connection.
#[verifier::ext_equal]
pub struct ConnectionModel {
    pub role: Role,
    pub local_descriptor: Option<DescriptorModel>,
    pub remote_descriptor: Option<DescriptorModel>,
    pub gathering_complete: bool,
    pub exported: bool,
    pub transport: TransportState,
    pub channel: Option<ChannelReadyState>,
}

impl View for Connection {
    type V = ConnectionModel;

    open spec fn view(&self) -> ConnectionModel {
        ConnectionModel {
            role: self.role,
            local_descriptor: match self.local_descriptor {
                Option::Some(d) => Option::Some(d@),
                Option::None => Option::None,
            },
            remote_descriptor: match self.remote_descriptor {
                Option::Some(d) => Option::Some(d@),
                Option::None => Option::None,
            },
            gathering_complete: self.gatherer.complete,
            exported: self.exported,
            transport: self.transport,
            channel: match self.channel {
                Option::Some(m) => Option::Some(m.ready_state),
                Option::None => Option::None,
            },
        }
    }
}

/// The orchestrator: the logical state and the owned connection, which
/// exists exactly while the state is not idle.
pub struct NegotiationOrchestrator {
    pub state: NegotiationState,
    pub connection: Option<Connection>,
}

/// The mathematical value of an orchestrator.
#[verifier::ext_equal]
pub struct OrchestratorModel {
    pub state: NegotiationState,
    pub connection: Option<ConnectionModel>,
}

impl View for NegotiationOrchestrator {
    type V = OrchestratorModel;

    open spec fn view(&self) -> OrchestratorModel {
        OrchestratorModel {
            state: self.state,
            connection: match self.connection {
                Option::Some(c) => Option::Some(c@),
                Option::None => Option::None,
            },
        }
    }
}

/// Everything the outside world can feed the orchestrator: the user's role
/// selection and pasted blob, the completion of the transport's asynchronous
/// descriptor tasks, path discovery, transport state changes, and channel
/// lifecycle events. Events may interleave arbitrarily.
#[derive(Debug)]
pub enum Event {
    /// The user chose a role while idle.
    RoleSelected(Role),
    /// The transport's descriptor-creation task finished with this payload.
    DescriptorCreated(String),
    /// The transport rejected descriptor creation or application, or path
    /// discovery failed.
    NegotiationFailed,
    /// Another candidate network path was discovered.
    PathDiscovered,
    /// The end-of-paths sentinel: discovery is complete.
    EndOfPaths,
    /// The user pasted a remote signaling blob.
    RemoteBlobPasted(String),
    /// The transport's connection state changed; `None` stands for a state
    /// the application did not recognise.
    TransportChanged(Option<TransportState>),
    /// The transport handed over a data channel instance (responder side).
    ChannelArrived,
    /// The owned channel reported open.
    ChannelOpened,
    /// The owned channel closed under transport teardown.
    ChannelClosed,
    /// The owned channel delivered a peer message.
    ChannelMessage(String),
    /// The application discarded the connection/channel pair after a
    /// terminal state, returning to idle for a fresh attempt.
    Discard,
}

/// The mathematical value of an event.
#[verifier::ext_equal]
pub enum EventModel {
    RoleSelected(Role),
    DescriptorCreated(Seq<char>),
    NegotiationFailed,
    PathDiscovered,
    EndOfPaths,
    RemoteBlobPasted(Seq<char>),
    TransportChanged(Option<TransportState>),
    ChannelArrived,
    ChannelOpened,
    ChannelClosed,
    ChannelMessage(Seq<char>),
    Discard,
}

impl View for Event {
    type V = EventModel;

    open spec fn view(&self) -> EventModel {
        match self {
            Event::RoleSelected(role) => EventModel::RoleSelected(*role),
            Event::DescriptorCreated(payload) => EventModel::DescriptorCreated(payload@),
            Event::NegotiationFailed => EventModel::NegotiationFailed,
            Event::PathDiscovered => EventModel::PathDiscovered,
            Event::EndOfPaths => EventModel::EndOfPaths,
            Event::RemoteBlobPasted(blob) => EventModel::RemoteBlobPasted(blob@),
            Event::TransportChanged(ts) => EventModel::TransportChanged(*ts),
            Event::ChannelArrived => EventModel::ChannelArrived,
            Event::ChannelOpened => EventModel::ChannelOpened,
            Event::ChannelClosed => EventModel::ChannelClosed,
            Event::ChannelMessage(payload) => EventModel::ChannelMessage(payload@),
            Event::Discard => EventModel::Discard,
        }
    }
}

/// The one action the application must perform after a step. The
/// orchestrator only decides; the transport work, the status reporter and
/// the message sink live outside.
#[derive(Debug)]
pub enum Action {
    /// Nothing to do.
    NoOp,
    /// Create the transport connection and its data channel, then start the
    /// offer-creation task.
    BeginOffer,
    /// Create the transport connection, apply this remote offer payload,
    /// then start the answer-creation task.
    BeginAnswer(String),
    /// Show this blob for manual transfer to the peer: the one-time export
    /// of the frozen local descriptor.
    ExportBlob(String),
    /// Apply this remote answer payload to the transport.
    ApplyAnswer(String),
    /// Surface this status string verbatim to the status reporter.
    ReportStatus(&'static str),
    /// Surface this terminal fault to the status reporter.
    ReportFault(Fault),
    /// Tell the user interface that sending is now permitted.
    NotifySendingPermitted,
    /// Hand this peer message to the message sink verbatim.
    DeliverMessage(String),
}

/// The mathematical value of an action.
#[verifier::ext_equal]
pub enum ActionModel {
    NoOp,
    BeginOffer,
    BeginAnswer(Seq<char>),
    ExportBlob(Seq<char>),
    ApplyAnswer(Seq<char>),
    ReportStatus(Seq<char>),
    ReportFault(Fault),
    NotifySendingPermitted,
    DeliverMessage(Seq<char>),
}

impl View for Action {
    type V = ActionModel;

    open spec fn view(&self) -> ActionModel {
        match self {
            Action::NoOp => ActionModel::NoOp,
            Action::BeginOffer => ActionModel::BeginOffer,
            Action::BeginAnswer(payload) => ActionModel::BeginAnswer(payload@),
            Action::ExportBlob(blob) => ActionModel::ExportBlob(blob@),
            Action::ApplyAnswer(payload) => ActionModel::ApplyAnswer(payload@),
            Action::ReportStatus(label) => ActionModel::ReportStatus(label@),
            Action::ReportFault(fault) => ActionModel::ReportFault(*fault),
            Action::NotifySendingPermitted => ActionModel::NotifySendingPermitted,
            Action::DeliverMessage(payload) => ActionModel::DeliverMessage(payload@),
        }
    }
}

/// The outcome of one step: the next orchestrator and the action owed.
#[verifier::ext_equal]
pub struct StepModel {
    pub next: OrchestratorModel,
    pub action: ActionModel,
}

/// The status string for a transport state; `None` stands for a state the
/// application did not recognise.
pub open spec fn status_label_spec(ts: Option<TransportState>) -> Seq<char> {
    match ts {
        Option::Some(TransportState::New) => "new"@,
        Option::Some(TransportState::Connecting) => "connecting"@,
        Option::Some(TransportState::Connected) => "connected"@,
        Option::Some(TransportState::Disconnected) => "disconnected"@,
        Option::Some(TransportState::Failed) => "failed"@,
        Option::Some(TransportState::Closed) => "closed"@,
        Option::None => "unknown"@,
    }
}

/// The status string for a transport state, surfaced verbatim.
pub fn status_label(ts: Option<TransportState>) -> (label: &'static str)
    ensures
        label@ == status_label_spec(ts),
{
    match ts {
        Option::Some(TransportState::New) => "new",
        Option::Some(TransportState::Connecting) => "connecting",
        Option::Some(TransportState::Connected) => "connected",
        Option::Some(TransportState::Disconnected) => "disconnected",
        Option::Some(TransportState::Failed) => "failed",
        Option::Some(TransportState::Closed) => "closed",
        Option::None => "unknown",
    }
}

/// The connection a role selection creates: nothing discovered, nothing
/// exported; the initiator creates its data channel explicitly right here,
/// the responder will receive one from the transport later.
pub open spec fn fresh_connection(role: Role) -> ConnectionModel {
    ConnectionModel {
        role,
        local_descriptor: Option::None,
        remote_descriptor: Option::None,
        gathering_complete: false,
        exported: false,
        transport: TransportState::New,
        channel: if role is Initiator {
            Option::Some(ChannelReadyState::Connecting)
        } else {
            Option::None
        },
    }
}

/// A step that changes nothing and owes nothing.
pub open spec fn noop_step(m: OrchestratorModel) -> StepModel {
    StepModel { next: m, action: ActionModel::NoOp }
}

/// A terminal fault: the attempt fails (there is nothing to fail while no
/// connection exists) and the fault is surfaced.
pub open spec fn fail_step(m: OrchestratorModel, fault: Fault) -> StepModel {
    StepModel {
        next: OrchestratorModel {
            state: if m.connection is Some {
                NegotiationState::Failed
            } else {
                NegotiationState::Idle
            },
            connection: m.connection,
        },
        action: ActionModel::ReportFault(fault),
    }
}

/// A machine standing in `OfferReady` has nothing further to do locally —
/// its blob is exported — so it settles into awaiting the remote answer.
/// `AnswerReady` is itself the responder's final local state, so it rests.
pub open spec fn settle(m: OrchestratorModel) -> OrchestratorModel {
    if m.state is OfferReady {
        OrchestratorModel { state: NegotiationState::AwaitingRemoteAnswer, ..m }
    } else {
        m
    }
}

/// Entering the ready state: the frozen local descriptor is exported as a
/// blob, exactly once per connection; the initiator enters `OfferReady` and
/// settles, the responder enters `AnswerReady`.
pub open spec fn export_step(c: ConnectionModel, d: DescriptorModel) -> StepModel {
    let ready = if c.role is Initiator {
        NegotiationState::OfferReady
    } else {
        NegotiationState::AnswerReady
    };
    let exported = ConnectionModel { exported: true, ..c };
    StepModel {
        next: settle(
            OrchestratorModel { state: ready, connection: Option::Some(exported) },
        ),
        action: ActionModel::ExportBlob(descriptor_blob_spec(d)),
    }
}

/// Role selection: moves idle to the role's first state over a fresh
/// connection; anywhere else it is a no-op (the selection controls are gone
/// once a role is chosen).
pub open spec fn step_role_selected(m: OrchestratorModel, role: Role) -> StepModel {
    if m.state is Idle {
        match role {
            Role::Initiator => StepModel {
                next: OrchestratorModel {
                    state: NegotiationState::CreatingOffer,
                    connection: Option::Some(fresh_connection(role)),
                },
                action: ActionModel::BeginOffer,
            },
            Role::Responder => StepModel {
                next: OrchestratorModel {
                    state: NegotiationState::AwaitingRemoteOffer,
                    connection: Option::Some(fresh_connection(role)),
                },
                action: ActionModel::NoOp,
            },
        }
    } else {
        noop_step(m)
    }
}

/// The descriptor-creation task finished: the payload becomes the local
/// descriptor, with the kind the role implies. If discovery already
/// completed while the task ran, the export happens at once; otherwise the
/// machine awaits path gathering. A completion arriving in any other state
/// is stale — the attempt has moved on or failed — and changes nothing.
pub open spec fn step_descriptor_created(m: OrchestratorModel, payload: Seq<char>) -> StepModel {
    match m.connection {
        Option::None => noop_step(m),
        Option::Some(c) => {
            if m.state is CreatingOffer || m.state is CreatingAnswer {
                let kind = if m.state is CreatingOffer {
                    DescriptorKind::Offer
                } else {
                    DescriptorKind::Answer
                };
                let d = DescriptorModel { kind, payload };
                let stored = ConnectionModel { local_descriptor: Option::Some(d), ..c };
                if c.gathering_complete {
                    export_step(stored, d)
                } else {
                    StepModel {
                        next: OrchestratorModel {
                            state: NegotiationState::AwaitingPathGathering,
                            connection: Option::Some(stored),
                        },
                        action: ActionModel::NoOp,
                    }
                }
            } else {
                noop_step(m)
            }
        },
    }
}

/// The transport rejected a descriptor step or path discovery: terminal for
/// the attempt; while idle there is no attempt to fail.
pub open spec fn step_negotiation_failed(m: OrchestratorModel) -> StepModel {
    if m.connection is Some {
        fail_step(m, Fault::Negotiation)
    } else {
        noop_step(m)
    }
}

/// The end-of-paths sentinel. The first sentinel marks discovery complete;
/// if the machine awaits path gathering, describe-ready fires and the
/// export happens. Later sentinels are no-ops, and a sentinel that
/// overtakes the descriptor-creation task only records completion — the
/// export then happens when the descriptor arrives.
pub open spec fn step_end_of_paths(m: OrchestratorModel) -> StepModel {
    match m.connection {
        Option::None => noop_step(m),
        Option::Some(c) => {
            let fired = !c.gathering_complete;
            let complete = ConnectionModel { gathering_complete: true, ..c };
            if fired && m.state is AwaitingPathGathering && c.local_descriptor is Some {
                export_step(complete, c.local_descriptor->Some_0)
            } else {
                StepModel {
                    next: OrchestratorModel {
                        state: m.state,
                        connection: Option::Some(complete),
                    },
                    action: ActionModel::NoOp,
                }
            }
        },
    }
}

/// A pasted remote blob. A malformed blob is a terminal decode fault. An
/// offer is accepted while idle (the endpoint implicitly becomes the
/// responder) or while awaiting the remote offer; an offer while an answer
/// is awaited is the simultaneous-offer collision, a protocol fault. An
/// answer is accepted exactly while awaited; it completes the initiator's
/// negotiation. Every other kind/state pairing is a protocol fault.
pub open spec fn step_remote_blob(m: OrchestratorModel, blob: Seq<char>) -> StepModel {
    match parse_blob_spec(blob) {
        Option::None => fail_step(m, Fault::Decode(parse_blob_error_spec(blob))),
        Option::Some(d) => match d.kind {
            DescriptorKind::Offer => {
                if m.state is Idle {
                    let c = ConnectionModel {
                        remote_descriptor: Option::Some(d),
                        ..fresh_connection(Role::Responder)
                    };
                    StepModel {
                        next: OrchestratorModel {
                            state: NegotiationState::CreatingAnswer,
                            connection: Option::Some(c),
                        },
                        action: ActionModel::BeginAnswer(d.payload),
                    }
                } else if m.state is AwaitingRemoteOffer && m.connection is Some {
                    let c = ConnectionModel {
                        remote_descriptor: Option::Some(d),
                        ..m.connection->Some_0
                    };
                    StepModel {
                        next: OrchestratorModel {
                            state: NegotiationState::CreatingAnswer,
                            connection: Option::Some(c),
                        },
                        action: ActionModel::BeginAnswer(d.payload),
                    }
                } else {
                    fail_step(m, Fault::Protocol)
                }
            },
            DescriptorKind::Answer => {
                if m.state is AwaitingRemoteAnswer && m.connection is Some {
                    let c = ConnectionModel {
                        remote_descriptor: Option::Some(d),
                        ..m.connection->Some_0
                    };
                    StepModel {
                        next: OrchestratorModel {
                            state: m.state,
                            connection: Option::Some(c),
                        },
                        action: ActionModel::ApplyAnswer(d.payload),
                    }
                } else {
                    fail_step(m, Fault::Protocol)
                }
            },
        },
    }
}

/// A transport state change while the attempt is still live: surfaced
/// verbatim. Transport `Connected` is what makes the logical state
/// `Connected`; transport `Failed` or `Closed` fails the attempt regardless
/// of prior state. A change without a connection is stale and changes
/// nothing. (A machine already failed keeps surfacing reports but never
/// leaves the failed state: see `step_while_failed`.)
pub open spec fn step_transport_changed(
    m: OrchestratorModel,
    ts: Option<TransportState>,
) -> StepModel {
    match m.connection {
        Option::None => noop_step(m),
        Option::Some(c) => match ts {
            Option::None => StepModel {
                next: m,
                action: ActionModel::ReportStatus(status_label_spec(Option::None)),
            },
            Option::Some(t) => {
                let state = if t is Connected {
                    NegotiationState::Connected
                } else if t is Failed || t is Closed {
                    NegotiationState::Failed
                } else {
                    m.state
                };
                StepModel {
                    next: OrchestratorModel {
                        state,
                        connection: Option::Some(ConnectionModel { transport: t, ..c }),
                    },
                    action: ActionModel::ReportStatus(status_label_spec(Option::Some(t))),
                }
            },
        },
    }
}

/// The transport handed over a data channel instance: the responder
/// attaches to whichever instance arrived, replacing any earlier one. The
/// initiator created its channel itself and receives none.
pub open spec fn step_channel_arrived(m: OrchestratorModel) -> StepModel {
    match m.connection {
        Option::None => noop_step(m),
        Option::Some(c) => {
            if c.role is Responder {
                StepModel {
                    next: OrchestratorModel {
                        state: m.state,
                        connection: Option::Some(
                            ConnectionModel {
                                channel: Option::Some(ChannelReadyState::Connecting),
                                ..c
                            },
                        ),
                    },
                    action: ActionModel::NoOp,
                }
            } else {
                noop_step(m)
            }
        },
    }
}

/// The owned channel opened: sending becomes permitted.
pub open spec fn step_channel_opened(m: OrchestratorModel) -> StepModel {
    match m.connection {
        Option::None => noop_step(m),
        Option::Some(c) => match c.channel {
            Option::None => noop_step(m),
            Option::Some(_) => StepModel {
                next: OrchestratorModel {
                    state: m.state,
                    connection: Option::Some(
                        ConnectionModel { channel: Option::Some(ChannelReadyState::Open), ..c },
                    ),
                },
                action: ActionModel::NotifySendingPermitted,
            },
        },
    }
}

/// The owned channel closed under transport teardown.
pub open spec fn step_channel_closed(m: OrchestratorModel) -> StepModel {
    match m.connection {
        Option::None => noop_step(m),
        Option::Some(c) => match c.channel {
            Option::None => noop_step(m),
            Option::Some(_) => StepModel {
                next: OrchestratorModel {
                    state: m.state,
                    connection: Option::Some(
                        ConnectionModel { channel: Option::Some(ChannelReadyState::Closed), ..c },
                    ),
                },
                action: ActionModel::NoOp,
            },
        },
    }
}

/// A peer message arrived on the owned channel: delivered to the message
/// sink verbatim. Without a channel the message is stale and dropped.
pub open spec fn step_channel_message(m: OrchestratorModel, payload: Seq<char>) -> StepModel {
    match m.connection {
        Option::None => noop_step(m),
        Option::Some(c) => match c.channel {
            Option::None => noop_step(m),
            Option::Some(_) => StepModel { next: m, action: ActionModel::DeliverMessage(payload) },
        },
    }
}

/// The discard step: the application has discarded the connection/channel
/// pair; the machine returns to idle for a fresh attempt.
pub open spec fn discard_step() -> StepModel {
    StepModel {
        next: OrchestratorModel { state: NegotiationState::Idle, connection: Option::None },
        action: ActionModel::NoOp,
    }
}

/// Failure is terminal: once the machine stands in the failed state, no
/// event recovers the attempt. Transport reports are still surfaced
/// verbatim and a channel teardown is still recorded — but the logical
/// state stays failed, nothing is exported, begun, applied, delivered or
/// opened for sending, until the discard returns the machine to idle.
pub open spec fn step_while_failed(m: OrchestratorModel, e: EventModel) -> StepModel {
    match e {
        EventModel::Discard => discard_step(),
        EventModel::TransportChanged(ts) => match m.connection {
            Option::None => noop_step(m),
            Option::Some(c) => match ts {
                Option::None => StepModel {
                    next: m,
                    action: ActionModel::ReportStatus(status_label_spec(Option::None)),
                },
                Option::Some(t) => StepModel {
                    next: OrchestratorModel {
                        state: m.state,
                        connection: Option::Some(ConnectionModel { transport: t, ..c }),
                    },
                    action: ActionModel::ReportStatus(status_label_spec(Option::Some(t))),
                },
            },
        },
        EventModel::ChannelClosed => step_channel_closed(m),
        _ => noop_step(m),
    }
}

/// One step of the state machine: what the next orchestrator is and what
/// action the application owes, for every state and event. A failed
/// machine answers by its own, absorbing table.
pub open spec fn step_spec(m: OrchestratorModel, e: EventModel) -> StepModel {
    if m.state is Failed {
        step_while_failed(m, e)
    } else {
        match e {
            EventModel::RoleSelected(role) => step_role_selected(m, role),
            EventModel::DescriptorCreated(payload) => step_descriptor_created(m, payload),
            EventModel::NegotiationFailed => step_negotiation_failed(m),
            EventModel::PathDiscovered => noop_step(m),
            EventModel::EndOfPaths => step_end_of_paths(m),
            EventModel::RemoteBlobPasted(blob) => step_remote_blob(m, blob),
            EventModel::TransportChanged(ts) => step_transport_changed(m, ts),
            EventModel::ChannelArrived => step_channel_arrived(m),
            EventModel::ChannelOpened => step_channel_opened(m),
            EventModel::ChannelClosed => step_channel_closed(m),
            EventModel::ChannelMessage(payload) => step_channel_message(m, payload),
            EventModel::Discard => discard_step(),
        }
    }
}

/// Well-formedness: the invariants every reachable orchestrator satisfies.
/// A connection exists exactly while the machine is not idle; states agree
/// with the connection's role; the local descriptor exists, is frozen and
/// is exported exactly as far as the state chain says; descriptor kinds
/// agree with the roles that produced them.
pub open spec fn wf(m: OrchestratorModel) -> bool {
    &&& (m.state is Idle <==> m.connection is None)
    &&& match m.connection {
        Option::None => true,
        Option::Some(c) => {
            &&& (m.state is CreatingOffer || m.state is OfferReady
                || m.state is AwaitingRemoteAnswer ==> c.role is Initiator)
            &&& (m.state is AwaitingRemoteOffer || m.state is CreatingAnswer
                || m.state is AnswerReady ==> c.role is Responder)
            &&& (c.role is Initiator ==> c.channel is Some)
            &&& (m.state is CreatingOffer || m.state is AwaitingRemoteOffer
                || m.state is CreatingAnswer ==> c.local_descriptor is None && !c.exported)
            &&& (m.state is AwaitingPathGathering ==> c.local_descriptor is Some
                && !c.gathering_complete && !c.exported)
            &&& (m.state is OfferReady || m.state is AnswerReady
                || m.state is AwaitingRemoteAnswer ==> c.exported)
            &&& (c.exported ==> c.gathering_complete && c.local_descriptor is Some)
            &&& (c.local_descriptor matches Some(d) ==> d.kind == (if c.role is Initiator {
                DescriptorKind::Offer
            } else {
                DescriptorKind::Answer
            }))
            &&& (c.remote_descriptor matches Some(d) ==> d.kind == (if c.role is Initiator {
                DescriptorKind::Answer
            } else {
                DescriptorKind::Offer
            }))
            &&& (m.state is CreatingAnswer ==> c.remote_descriptor is Some)
            &&& (c.role is Responder && c.local_descriptor is Some
                ==> c.remote_descriptor is Some)
        },
    }
}

/// Every step preserves well-formedness: the transition table never builds
/// an orchestrator the invariants reject.
pub proof fn lemma_step_preserves_wf(m: OrchestratorModel, e: EventModel)
    requires
        wf(m),
    ensures
        wf(step_spec(m, e).next),
{
}

/// Law: from idle, the initiator visits its chain in order. Selecting the
/// initiator role enters `CreatingOffer`; the created offer enters
/// `AwaitingPathGathering`; the end-of-paths sentinel fires describe-ready,
/// enters `OfferReady` — exporting the frozen offer as a blob exactly
/// there — and settles into awaiting the remote answer.
pub proof fn lemma_initiator_chain(payload: Seq<char>)
    ensures
        ({
            let m0 = OrchestratorModel { state: NegotiationState::Idle, connection: Option::None };
            let s1 = step_spec(m0, EventModel::RoleSelected(Role::Initiator));
            let s2 = step_spec(s1.next, EventModel::DescriptorCreated(payload));
            let s3 = step_spec(s2.next, EventModel::EndOfPaths);
            let offer = DescriptorModel { kind: DescriptorKind::Offer, payload };
            &&& s1.next.state is CreatingOffer
            &&& s1.action is BeginOffer
            &&& s2.next.state is AwaitingPathGathering
            &&& s3.action == ActionModel::ExportBlob(descriptor_blob_spec(offer))
            &&& s3.next.state is AwaitingRemoteAnswer
            &&& exists|pre: OrchestratorModel| pre.state is OfferReady && s3.next == settle(pre)
        }),
{
    let m0 = OrchestratorModel { state: NegotiationState::Idle, connection: Option::None };
    let s1 = step_spec(m0, EventModel::RoleSelected(Role::Initiator));
    let s2 = step_spec(s1.next, EventModel::DescriptorCreated(payload));
    let s3 = step_spec(s2.next, EventModel::EndOfPaths);
    let c = s2.next.connection->Some_0;
    let pre = OrchestratorModel {
        state: NegotiationState::OfferReady,
        connection: Option::Some(
            ConnectionModel { exported: true, gathering_complete: true, ..c },
        ),
    };
    assert(pre.state is OfferReady && s3.next == settle(pre));
}

/// Law: an orchestrator whose connection plays the initiator never stands
/// in a responder-only state: well-formedness ties those states to a
/// responder connection, and every step preserves it.
pub proof fn lemma_initiator_avoids_responder_states(m: OrchestratorModel, e: EventModel)
    requires
        wf(m),
        step_spec(m, e).next.connection matches Some(c) && c.role is Initiator,
    ensures
        !(step_spec(m, e).next.state is AwaitingRemoteOffer),
        !(step_spec(m, e).next.state is CreatingAnswer),
        !(step_spec(m, e).next.state is AnswerReady),
{
    lemma_step_preserves_wf(m, e);
}

/// Law: a decoded blob of kind offer, pasted while the remote answer is
/// awaited, is the simultaneous-offer collision: the step surfaces a
/// protocol fault and the attempt fails, with no automatic resolution.
pub proof fn lemma_offer_collision_is_protocol_fault(m: OrchestratorModel, blob: Seq<char>)
    requires
        wf(m),
        m.state is AwaitingRemoteAnswer,
        parse_blob_spec(blob) matches Some(d) && d.kind is Offer,
    ensures
        step_spec(m, EventModel::RemoteBlobPasted(blob)).action == ActionModel::ReportFault(
            Fault::Protocol,
        ),
        step_spec(m, EventModel::RemoteBlobPasted(blob)).next.state is Failed,
{
}

/// Law: the blob export happens at most once per connection: no step of an
/// orchestrator whose connection has already exported yields another export
/// action. Together with well-formedness — exporting requires completed
/// path gathering — this is the one-time-export invariant.
pub proof fn lemma_export_at_most_once(m: OrchestratorModel, e: EventModel)
    requires
        wf(m),
        m.connection matches Some(c) && c.exported,
    ensures
        !(step_spec(m, e).action is ExportBlob),
{
}

/// Law: a step that exports a blob exports exactly the frozen local
/// descriptor, and leaves a connection whose path gathering is complete and
/// whose one-time export is recorded: nothing is exported before the
/// sentinel, and what is exported is immutable from then on.
pub proof fn lemma_export_is_the_frozen_descriptor(m: OrchestratorModel, e: EventModel)
    requires
        wf(m),
        step_spec(m, e).action is ExportBlob,
    ensures
        ({
            &&& step_spec(m, e).next.connection matches Some(c)
            &&& c.exported
            &&& c.gathering_complete
            &&& c.local_descriptor matches Some(d)
            &&& step_spec(m, e).action == ActionModel::ExportBlob(descriptor_blob_spec(d))
        }),
{
}

/// Law: failure is terminal. While the machine stands in the failed state,
/// every event but the discard leaves it failed, and no step resumes work:
/// nothing is begun, exported, applied, delivered, and sending is never
/// declared permitted. Recovery goes only through discarding the pair and
/// selecting a role again from idle.
pub proof fn lemma_failure_is_terminal(m: OrchestratorModel, e: EventModel)
    requires
        m.state is Failed,
        !(e is Discard),
    ensures
        step_spec(m, e).next.state is Failed,
        !(step_spec(m, e).action is BeginOffer),
        !(step_spec(m, e).action is BeginAnswer),
        !(step_spec(m, e).action is ExportBlob),
        !(step_spec(m, e).action is ApplyAnswer),
        !(step_spec(m, e).action is DeliverMessage),
        !(step_spec(m, e).action is NotifySendingPermitted),
{
}

/// Law: the discard, and only the discard, leaves the failed state: it
/// drops the pair and returns the machine to idle.
pub proof fn lemma_discard_recovers(m: OrchestratorModel)
    ensures
        step_spec(m, EventModel::Discard).next == (OrchestratorModel {
            state: NegotiationState::Idle,
            connection: Option::None,
        }),
{
}

impl NegotiationOrchestrator {
    /// A fresh orchestrator: idle, owning no connection.
    pub fn new() -> (o: NegotiationOrchestrator)
        ensures
            o@ == (OrchestratorModel {
                state: NegotiationState::Idle,
                connection: Option::None,
            }),
            wf(o@),
    {
        NegotiationOrchestrator { state: NegotiationState::Idle, connection: None }
    }

    /// Fails the current attempt and surfaces the fault.
    fn fail(&mut self, fault: Fault) -> (action: Action)
        ensures
            final(self)@ == fail_step(old(self)@, fault).next,
            action@ == fail_step(old(self)@, fault).action,
    {
        if self.connection.is_some() {
            self.state = NegotiationState::Failed;
        } else {
            self.state = NegotiationState::Idle;
        }
        Action::ReportFault(fault)
    }

    fn on_role_selected(&mut self, role: Role) -> (action: Action)
        ensures
            final(self)@ == step_role_selected(old(self)@, role).next,
            action@ == step_role_selected(old(self)@, role).action,
    {
        if self.state != NegotiationState::Idle {
            return Action::NoOp;
        }
        match role {
            Role::Initiator => {
                self.state = NegotiationState::CreatingOffer;
                self.connection = Some(
                    Connection {
                        role,
                        local_descriptor: None,
                        remote_descriptor: None,
                        gatherer: PathGatherer::new(),
                        exported: false,
                        transport: TransportState::New,
                        channel: Some(ChannelManager::attach()),
                    },
                );
                Action::BeginOffer
            },
            Role::Responder => {
                self.state = NegotiationState::AwaitingRemoteOffer;
                self.connection = Some(
                    Connection {
                        role,
                        local_descriptor: None,
                        remote_descriptor: None,
                        gatherer: PathGatherer::new(),
                        exported: false,
                        transport: TransportState::New,
                        channel: None,
                    },
                );
                Action::NoOp
            },
        }
    }

    fn on_descriptor_created(&mut self, payload: String) -> (action: Action)
        ensures
            final(self)@ == step_descriptor_created(old(self)@, payload@).next,
            action@ == step_descriptor_created(old(self)@, payload@).action,
    {
        let creating_offer = self.state == NegotiationState::CreatingOffer;
        let creating_answer = self.state == NegotiationState::CreatingAnswer;
        if !(creating_offer || creating_answer) {
            return Action::NoOp;
        }
        match &mut self.connection {
            None => Action::NoOp,
            Some(conn) => {
                let kind = if creating_offer {
                    DescriptorKind::Offer
                } else {
                    DescriptorKind::Answer
                };
                let d = ConnectionDescriptor { kind, payload };
                if conn.gatherer.complete {
                    let blob = crate::descriptor::encode_descriptor(&d);
                    conn.local_descriptor = Some(d);
                    conn.exported = true;
                    self.state = if conn.role == Role::Initiator {
                        NegotiationState::AwaitingRemoteAnswer
                    } else {
                        NegotiationState::AnswerReady
                    };
                    Action::ExportBlob(blob)
                } else {
                    conn.local_descriptor = Some(d);
                    self.state = NegotiationState::AwaitingPathGathering;
                    Action::NoOp
                }
            },
        }
    }

    fn on_negotiation_failed(&mut self) -> (action: Action)
        ensures
            final(self)@ == step_negotiation_failed(old(self)@).next,
            action@ == step_negotiation_failed(old(self)@).action,
    {
        if self.connection.is_some() {
            self.fail(Fault::Negotiation)
        } else {
            Action::NoOp
        }
    }

    fn on_end_of_paths(&mut self) -> (action: Action)
        ensures
            final(self)@ == step_end_of_paths(old(self)@).next,
            action@ == step_end_of_paths(old(self)@).action,
    {
        let awaiting = self.state == NegotiationState::AwaitingPathGathering;
        match &mut self.connection {
            None => Action::NoOp,
            Some(conn) => {
                let fired = conn.gatherer.observe(PathEvent::EndOfPaths);
                if fired && awaiting {
                    match &conn.local_descriptor {
                        Some(d) => {
                            let blob = crate::descriptor::encode_descriptor(d);
                            conn.exported = true;
                            self.state = if conn.role == Role::Initiator {
                                NegotiationState::AwaitingRemoteAnswer
                            } else {
                                NegotiationState::AnswerReady
                            };
                            Action::ExportBlob(blob)
                        },
                        None => Action::NoOp,
                    }
                } else {
                    Action::NoOp
                }
            },
        }
    }

    fn on_remote_blob(&mut self, blob: String) -> (action: Action)
        ensures
            final(self)@ == step_remote_blob(old(self)@, blob@).next,
            action@ == step_remote_blob(old(self)@, blob@).action,
    {
        let d = match crate::descriptor::decode_descriptor(blob.as_str()) {
            Ok(d) => d,
            Err(e) => {
                return self.fail(Fault::Decode(e));
            },
        };
        match d.kind {
            DescriptorKind::Offer => {
                if self.state == NegotiationState::Idle {
                    let begin = d.payload.clone();
                    self.state = NegotiationState::CreatingAnswer;
                    self.connection = Some(
                        Connection {
                            role: Role::Responder,
                            local_descriptor: None,
                            remote_descriptor: Some(d),
                            gatherer: PathGatherer::new(),
                            exported: false,
                            transport: TransportState::New,
                            channel: None,
                        },
                    );
                    Action::BeginAnswer(begin)
                } else if self.state == NegotiationState::AwaitingRemoteOffer
                    && self.connection.is_some() {
                    let begin = d.payload.clone();
                    match &mut self.connection {
                        Some(conn) => {
                            conn.remote_descriptor = Some(d);
                        },
                        None => {},
                    }
                    self.state = NegotiationState::CreatingAnswer;
                    Action::BeginAnswer(begin)
                } else {
                    self.fail(Fault::Protocol)
                }
            },
            DescriptorKind::Answer => {
                if self.state == NegotiationState::AwaitingRemoteAnswer
                    && self.connection.is_some() {
                    let apply = d.payload.clone();
                    match &mut self.connection {
                        Some(conn) => {
                            conn.remote_descriptor = Some(d);
                        },
                        None => {},
                    }
                    Action::ApplyAnswer(apply)
                } else {
                    self.fail(Fault::Protocol)
                }
            },
        }
    }

    fn on_transport_changed(&mut self, ts: Option<TransportState>) -> (action: Action)
        ensures
            final(self)@ == step_transport_changed(old(self)@, ts).next,
            action@ == step_transport_changed(old(self)@, ts).action,
    {
        match &mut self.connection {
            None => Action::NoOp,
            Some(conn) => match ts {
                None => Action::ReportStatus(status_label(None)),
                Some(t) => {
                    conn.transport = t;
                    if t == TransportState::Connected {
                        self.state = NegotiationState::Connected;
                    } else if t == TransportState::Failed || t == TransportState::Closed {
                        self.state = NegotiationState::Failed;
                    }
                    Action::ReportStatus(status_label(Some(t)))
                },
            },
        }
    }

    fn on_channel_arrived(&mut self) -> (action: Action)
        ensures
            final(self)@ == step_channel_arrived(old(self)@).next,
            action@ == step_channel_arrived(old(self)@).action,
    {
        match &mut self.connection {
            None => Action::NoOp,
            Some(conn) => {
                if conn.role == Role::Responder {
                    conn.channel = Some(ChannelManager::attach());
                }
                Action::NoOp
            },
        }
    }

    fn on_channel_opened(&mut self) -> (action: Action)
        ensures
            final(self)@ == step_channel_opened(old(self)@).next,
            action@ == step_channel_opened(old(self)@).action,
    {
        match &mut self.connection {
            None => Action::NoOp,
            Some(conn) => match &mut conn.channel {
                None => Action::NoOp,
                Some(mgr) => {
                    mgr.on_open();
                    Action::NotifySendingPermitted
                },
            },
        }
    }

    fn on_channel_closed(&mut self) -> (action: Action)
        ensures
            final(self)@ == step_channel_closed(old(self)@).next,
            action@ == step_channel_closed(old(self)@).action,
    {
        match &mut self.connection {
            None => Action::NoOp,
            Some(conn) => match &mut conn.channel {
                None => Action::NoOp,
                Some(mgr) => {
                    mgr.on_close();
                    Action::NoOp
                },
            },
        }
    }

    fn on_channel_message(&mut self, payload: String) -> (action: Action)
        ensures
            final(self)@ == step_channel_message(old(self)@, payload@).next,
            action@ == step_channel_message(old(self)@, payload@).action,
    {
        match &self.connection {
            None => Action::NoOp,
            Some(conn) => match &conn.channel {
                None => Action::NoOp,
                Some(mgr) => Action::DeliverMessage(mgr.on_message(payload)),
            },
        }
    }

    /// The absorbing behaviour of a failed machine: transport reports are
    /// still surfaced, a channel teardown is still recorded, the discard
    /// returns to idle, and everything else changes nothing.
    fn handle_while_failed(&mut self, event: Event) -> (action: Action)
        ensures
            final(self)@ == step_while_failed(old(self)@, event@).next,
            action@ == step_while_failed(old(self)@, event@).action,
    {
        match event {
            Event::Discard => {
                self.state = NegotiationState::Idle;
                self.connection = None;
                Action::NoOp
            },
            Event::TransportChanged(ts) => match &mut self.connection {
                None => Action::NoOp,
                Some(conn) => match ts {
                    None => Action::ReportStatus(status_label(None)),
                    Some(t) => {
                        conn.transport = t;
                        Action::ReportStatus(status_label(Some(t)))
                    },
                },
            },
            Event::ChannelClosed => self.on_channel_closed(),
            _ => Action::NoOp,
        }
    }

    /// Consumes one outside event and returns the one action the
    /// application owes for it. The machine steps exactly as `step_spec`
    /// says and stays well-formed.
    pub fn handle(&mut self, event: Event) -> (action: Action)
        requires
            wf(old(self)@),
        ensures
            wf(final(self)@),
            final(self)@ == step_spec(old(self)@, event@).next,
            action@ == step_spec(old(self)@, event@).action,
    {
        proof {
            lemma_step_preserves_wf(old(self)@, event@);
        }
        if self.state == NegotiationState::Failed {
            return self.handle_while_failed(event);
        }
        match event {
            Event::RoleSelected(role) => self.on_role_selected(role),
            Event::DescriptorCreated(payload) => self.on_descriptor_created(payload),
            Event::NegotiationFailed => self.on_negotiation_failed(),
            Event::PathDiscovered => Action::NoOp,
            Event::EndOfPaths => self.on_end_of_paths(),
            Event::RemoteBlobPasted(blob) => self.on_remote_blob(blob),
            Event::TransportChanged(ts) => self.on_transport_changed(ts),
            Event::ChannelArrived => self.on_channel_arrived(),
            Event::ChannelOpened => self.on_channel_opened(),
            Event::ChannelClosed => self.on_channel_closed(),
            Event::ChannelMessage(payload) => self.on_channel_message(payload),
            Event::Discard => {
                self.state = NegotiationState::Idle;
                self.connection = None;
                Action::NoOp
            },
        }
    }

    /// Sends application text through the owned channel. Succeeds exactly
    /// while a channel exists and is open: the caller transmits the
    /// returned text and echoes it to the message sink as local-originated.
    /// Otherwise the send fails with `ChannelNotOpenError` and nothing is
    /// transmitted.
    pub fn send(&self, text: String) -> (r: Result<String, ChannelNotOpenError>)
        ensures
            r is Ok <==> (self@.connection matches Some(c) && c.channel == Some(
                ChannelReadyState::Open,
            )),
            r matches Ok(echo) ==> echo == text,
    {
        match &self.connection {
            None => Err(ChannelNotOpenError),
            Some(conn) => match &conn.channel {
                None => Err(ChannelNotOpenError),
                Some(mgr) => mgr.send(text),
            },
        }
    }

    /// A snapshot of the logical negotiation state, for outside readers.
    pub fn negotiation_state(&self) -> (s: NegotiationState)
        ensures
            s == self@.state,
    {
        self.state
    }

    /// A snapshot of the transport's state, while a connection exists.
    pub fn transport_state(&self) -> (t: Option<TransportState>)
        ensures
            t == match self@.connection {
                Option::Some(c) => Option::Some(c.transport),
                Option::None => Option::None::<TransportState>,
            },
    {
        match &self.connection {
            Some(conn) => Some(conn.transport),
            None => None,
        }
    }

    /// A snapshot of the owned channel's readiness, while one exists.
    pub fn channel_ready_state(&self) -> (r: Option<ChannelReadyState>)
        ensures
            r == match self@.connection {
                Option::Some(c) => c.channel,
                Option::None => Option::None::<ChannelReadyState>,
            },
    {
        match &self.connection {
            Some(conn) => match &conn.channel {
                Some(mgr) => Some(mgr.ready_state),
                None => None,
            },
            None => None,
        }
    }
}

} // verus!
