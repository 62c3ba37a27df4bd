use peerlink::channel::{ChannelNotOpenError, ChannelReadyState};
use peerlink::codec::DecodeError;
use peerlink::descriptor::{encode_descriptor, ConnectionDescriptor, DescriptorKind};
use peerlink::orchestrator::{
    status_label, Action, Event, Fault, NegotiationOrchestrator, NegotiationState, Role,
    TransportState,
};

fn offer_blob(payload: &str) -> String {
    encode_descriptor(&ConnectionDescriptor {
        kind: DescriptorKind::Offer,
        payload: payload.to_string(),
    })
}

fn answer_blob(payload: &str) -> String {
    encode_descriptor(&ConnectionDescriptor {
        kind: DescriptorKind::Answer,
        payload: payload.to_string(),
    })
}

fn expect_export(action: Action) -> String {
    match action {
        Action::ExportBlob(blob) => blob,
        other => panic!("expected an export, got {other:?}"),
    }
}

#[test]
fn initiator_walks_its_chain() {
    let mut o = NegotiationOrchestrator::new();
    assert_eq!(o.negotiation_state(), NegotiationState::Idle);

    assert!(matches!(o.handle(Event::RoleSelected(Role::Initiator)), Action::BeginOffer));
    assert_eq!(o.negotiation_state(), NegotiationState::CreatingOffer);

    assert!(matches!(o.handle(Event::PathDiscovered), Action::NoOp));
    assert_eq!(o.negotiation_state(), NegotiationState::CreatingOffer);

    assert!(matches!(
        o.handle(Event::DescriptorCreated("offer-sdp".to_string())),
        Action::NoOp
    ));
    assert_eq!(o.negotiation_state(), NegotiationState::AwaitingPathGathering);

    let blob = expect_export(o.handle(Event::EndOfPaths));
    assert_eq!(o.negotiation_state(), NegotiationState::AwaitingRemoteAnswer);
    let d = peerlink::descriptor::decode_descriptor(&blob).unwrap();
    assert_eq!(d.kind, DescriptorKind::Offer);
    assert_eq!(d.payload, "offer-sdp");
}

#[test]
fn initiator_never_enters_responder_states() {
    let mut o = NegotiationOrchestrator::new();
    let script = [
        Event::RoleSelected(Role::Initiator),
        Event::PathDiscovered,
        Event::DescriptorCreated("offer-sdp".to_string()),
        Event::EndOfPaths,
        Event::EndOfPaths,
        Event::RemoteBlobPasted(answer_blob("answer-sdp")),
        Event::TransportChanged(Some(TransportState::Connected)),
        Event::ChannelOpened,
    ];
    for e in script {
        o.handle(e);
        let s = o.negotiation_state();
        assert!(!matches!(
            s,
            NegotiationState::AwaitingRemoteOffer
                | NegotiationState::CreatingAnswer
                | NegotiationState::AnswerReady
        ));
    }
    assert_eq!(o.negotiation_state(), NegotiationState::Connected);
}

#[test]
fn export_happens_exactly_once() {
    let mut o = NegotiationOrchestrator::new();
    o.handle(Event::RoleSelected(Role::Initiator));
    o.handle(Event::DescriptorCreated("offer-sdp".to_string()));
    let mut exports: usize = 0;
    for _ in 0..3 {
        if matches!(o.handle(Event::EndOfPaths), Action::ExportBlob(_)) {
            exports += 1;
        }
    }
    assert_eq!(exports, 1);
}

#[test]
fn sentinel_overtaking_the_offer_task_still_exports_once() {
    let mut o = NegotiationOrchestrator::new();
    o.handle(Event::RoleSelected(Role::Initiator));
    // Discovery completes before the offer-creation task does.
    assert!(matches!(o.handle(Event::EndOfPaths), Action::NoOp));
    assert_eq!(o.negotiation_state(), NegotiationState::CreatingOffer);
    // The export then happens as soon as the descriptor arrives.
    let blob = expect_export(o.handle(Event::DescriptorCreated("late-offer".to_string())));
    assert_eq!(o.negotiation_state(), NegotiationState::AwaitingRemoteAnswer);
    let d = peerlink::descriptor::decode_descriptor(&blob).unwrap();
    assert_eq!(d.payload, "late-offer");
    assert!(matches!(o.handle(Event::EndOfPaths), Action::NoOp));
}

#[test]
fn responder_walks_its_chain() {
    let mut o = NegotiationOrchestrator::new();
    assert!(matches!(o.handle(Event::RoleSelected(Role::Responder)), Action::NoOp));
    assert_eq!(o.negotiation_state(), NegotiationState::AwaitingRemoteOffer);

    match o.handle(Event::RemoteBlobPasted(offer_blob("their-offer"))) {
        Action::BeginAnswer(payload) => assert_eq!(payload, "their-offer"),
        other => panic!("expected answer creation, got {other:?}"),
    }
    assert_eq!(o.negotiation_state(), NegotiationState::CreatingAnswer);

    o.handle(Event::DescriptorCreated("my-answer".to_string()));
    assert_eq!(o.negotiation_state(), NegotiationState::AwaitingPathGathering);

    let blob = expect_export(o.handle(Event::EndOfPaths));
    assert_eq!(o.negotiation_state(), NegotiationState::AnswerReady);
    let d = peerlink::descriptor::decode_descriptor(&blob).unwrap();
    assert_eq!(d.kind, DescriptorKind::Answer);
    assert_eq!(d.payload, "my-answer");
}

#[test]
fn offer_pasted_while_idle_makes_a_responder() {
    let mut o = NegotiationOrchestrator::new();
    match o.handle(Event::RemoteBlobPasted(offer_blob("early-offer"))) {
        Action::BeginAnswer(payload) => assert_eq!(payload, "early-offer"),
        other => panic!("expected answer creation, got {other:?}"),
    }
    assert_eq!(o.negotiation_state(), NegotiationState::CreatingAnswer);
}

#[test]
fn offer_collision_is_a_protocol_fault() {
    let mut o = NegotiationOrchestrator::new();
    o.handle(Event::RoleSelected(Role::Initiator));
    o.handle(Event::DescriptorCreated("offer-sdp".to_string()));
    o.handle(Event::EndOfPaths);
    assert_eq!(o.negotiation_state(), NegotiationState::AwaitingRemoteAnswer);
    assert!(matches!(
        o.handle(Event::RemoteBlobPasted(offer_blob("their-offer"))),
        Action::ReportFault(Fault::Protocol)
    ));
    assert_eq!(o.negotiation_state(), NegotiationState::Failed);
}

#[test]
fn answer_out_of_turn_is_a_protocol_fault() {
    let mut o = NegotiationOrchestrator::new();
    o.handle(Event::RoleSelected(Role::Responder));
    assert!(matches!(
        o.handle(Event::RemoteBlobPasted(answer_blob("answer-sdp"))),
        Action::ReportFault(Fault::Protocol)
    ));
    assert_eq!(o.negotiation_state(), NegotiationState::Failed);
}

#[test]
fn malformed_blob_is_a_decode_fault() {
    let mut o = NegotiationOrchestrator::new();
    o.handle(Event::RoleSelected(Role::Responder));
    assert!(matches!(
        o.handle(Event::RemoteBlobPasted("not a blob !!!".to_string())),
        Action::ReportFault(Fault::Decode(DecodeError::InvalidAlphabet))
    ));
    assert_eq!(o.negotiation_state(), NegotiationState::Failed);
}

#[test]
fn transport_failure_fails_the_attempt() {
    let mut o = NegotiationOrchestrator::new();
    o.handle(Event::RoleSelected(Role::Initiator));
    match o.handle(Event::TransportChanged(Some(TransportState::Failed))) {
        Action::ReportStatus(label) => assert_eq!(label, "failed"),
        other => panic!("expected a status report, got {other:?}"),
    }
    assert_eq!(o.negotiation_state(), NegotiationState::Failed);
    // Recovery: discard the pair, then select a role again.
    assert!(matches!(o.handle(Event::Discard), Action::NoOp));
    assert_eq!(o.negotiation_state(), NegotiationState::Idle);
    assert!(matches!(o.handle(Event::RoleSelected(Role::Initiator)), Action::BeginOffer));
}

#[test]
fn transport_states_surface_verbatim() {
    let mut o = NegotiationOrchestrator::new();
    o.handle(Event::RoleSelected(Role::Initiator));
    let cases = [
        (TransportState::New, "new"),
        (TransportState::Connecting, "connecting"),
        (TransportState::Disconnected, "disconnected"),
    ];
    for (ts, expected) in cases {
        match o.handle(Event::TransportChanged(Some(ts))) {
            Action::ReportStatus(label) => assert_eq!(label, expected),
            other => panic!("expected a status report, got {other:?}"),
        }
        assert_eq!(o.transport_state(), Some(ts));
        assert_eq!(o.negotiation_state(), NegotiationState::CreatingOffer);
    }
    match o.handle(Event::TransportChanged(None)) {
        Action::ReportStatus(label) => assert_eq!(label, "unknown"),
        other => panic!("expected a status report, got {other:?}"),
    }
}

#[test]
fn status_labels_cover_every_state() {
    assert_eq!(status_label(Some(TransportState::New)), "new");
    assert_eq!(status_label(Some(TransportState::Connecting)), "connecting");
    assert_eq!(status_label(Some(TransportState::Connected)), "connected");
    assert_eq!(status_label(Some(TransportState::Disconnected)), "disconnected");
    assert_eq!(status_label(Some(TransportState::Failed)), "failed");
    assert_eq!(status_label(Some(TransportState::Closed)), "closed");
    assert_eq!(status_label(None), "unknown");
}

#[test]
fn send_is_gated_on_the_channel() {
    let mut o = NegotiationOrchestrator::new();
    assert_eq!(o.send("early".to_string()), Err(ChannelNotOpenError));
    o.handle(Event::RoleSelected(Role::Initiator));
    assert_eq!(o.channel_ready_state(), Some(ChannelReadyState::Connecting));
    assert_eq!(o.send("still early".to_string()), Err(ChannelNotOpenError));
    assert!(matches!(o.handle(Event::ChannelOpened), Action::NotifySendingPermitted));
    assert_eq!(o.channel_ready_state(), Some(ChannelReadyState::Open));
    assert_eq!(o.send("now".to_string()), Ok("now".to_string()));
    o.handle(Event::ChannelClosed);
    assert_eq!(o.channel_ready_state(), Some(ChannelReadyState::Closed));
    assert_eq!(o.send("too late".to_string()), Err(ChannelNotOpenError));
}

#[test]
fn stale_events_change_nothing() {
    let mut o = NegotiationOrchestrator::new();
    assert!(matches!(o.handle(Event::EndOfPaths), Action::NoOp));
    assert!(matches!(o.handle(Event::DescriptorCreated("x".to_string())), Action::NoOp));
    assert!(matches!(o.handle(Event::ChannelOpened), Action::NoOp));
    assert!(matches!(o.handle(Event::ChannelMessage("x".to_string())), Action::NoOp));
    assert!(matches!(o.handle(Event::TransportChanged(Some(TransportState::Failed))), Action::NoOp));
    assert!(matches!(o.handle(Event::NegotiationFailed), Action::NoOp));
    assert_eq!(o.negotiation_state(), NegotiationState::Idle);
}

#[test]
fn negotiation_failure_is_terminal() {
    let mut o = NegotiationOrchestrator::new();
    o.handle(Event::RoleSelected(Role::Responder));
    assert!(matches!(
        o.handle(Event::NegotiationFailed),
        Action::ReportFault(Fault::Negotiation)
    ));
    assert_eq!(o.negotiation_state(), NegotiationState::Failed);
}

#[test]
fn fault_labels_name_each_error() {
    assert_eq!(
        Fault::Decode(DecodeError::InvalidAlphabet).label(),
        "the code is not valid text-safe encoding"
    );
    assert_eq!(
        Fault::Decode(DecodeError::InvalidStream).label(),
        "the code does not hold a compressed descriptor"
    );
    assert_eq!(
        Fault::Decode(DecodeError::InvalidUtf8).label(),
        "the decompressed descriptor is not text"
    );
    assert_eq!(
        Fault::Decode(DecodeError::InvalidDescriptor).label(),
        "the decompressed descriptor has no known kind"
    );
    assert_eq!(Fault::Protocol.label(), "unexpected descriptor kind for the current state");
    assert_eq!(Fault::Negotiation.label(), "the transport rejected the negotiation step");
}

#[test]
fn failure_is_terminal_until_discard() {
    let mut o = NegotiationOrchestrator::new();
    o.handle(Event::RoleSelected(Role::Initiator));
    o.handle(Event::DescriptorCreated("offer-sdp".to_string()));
    o.handle(Event::EndOfPaths);
    // Simultaneous-offer collision: a terminal protocol fault.
    o.handle(Event::RemoteBlobPasted(offer_blob("their-offer")));
    assert_eq!(o.negotiation_state(), NegotiationState::Failed);

    // A late transport report is surfaced verbatim but recovers nothing.
    match o.handle(Event::TransportChanged(Some(TransportState::Connected))) {
        Action::ReportStatus(label) => assert_eq!(label, "connected"),
        other => panic!("expected a status report, got {other:?}"),
    }
    assert_eq!(o.negotiation_state(), NegotiationState::Failed);

    // Nothing else restarts work or permits sending.
    assert!(matches!(o.handle(Event::ChannelOpened), Action::NoOp));
    assert!(matches!(
        o.handle(Event::RemoteBlobPasted(answer_blob("late-answer"))),
        Action::NoOp
    ));
    assert!(matches!(o.handle(Event::EndOfPaths), Action::NoOp));
    assert!(matches!(o.handle(Event::RoleSelected(Role::Responder)), Action::NoOp));
    assert!(matches!(o.handle(Event::ChannelMessage("late".to_string())), Action::NoOp));
    assert_eq!(o.negotiation_state(), NegotiationState::Failed);
    assert_eq!(o.send("too late".to_string()), Err(ChannelNotOpenError));

    // Only the discard returns the machine to idle for a fresh attempt.
    assert!(matches!(o.handle(Event::Discard), Action::NoOp));
    assert_eq!(o.negotiation_state(), NegotiationState::Idle);
    assert!(matches!(o.handle(Event::RoleSelected(Role::Initiator)), Action::BeginOffer));
}

#[test]
fn channel_teardown_is_still_recorded_after_failure() {
    let mut o = NegotiationOrchestrator::new();
    o.handle(Event::RoleSelected(Role::Initiator));
    o.handle(Event::ChannelOpened);
    o.handle(Event::TransportChanged(Some(TransportState::Failed)));
    assert_eq!(o.negotiation_state(), NegotiationState::Failed);
    assert!(matches!(o.handle(Event::ChannelClosed), Action::NoOp));
    assert_eq!(o.channel_ready_state(), Some(ChannelReadyState::Closed));
    assert_eq!(o.send("x".to_string()), Err(ChannelNotOpenError));
    assert_eq!(o.negotiation_state(), NegotiationState::Failed);
}
