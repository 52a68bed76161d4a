use debugger::envelope::{
    AnyTypedEnvelope, EntityMessage, EnvelopedMessage, MessagePriority, Payload, TypedEnvelope,
};
use debugger::peer::PeerId;
use debugger::proto::{Ack, DapNextRequest, DapPauseRequest, DapTerminateThreadsRequest};

fn next_request() -> DapNextRequest {
    DapNextRequest {
        project_id: 7,
        client_id: 2,
        thread_id: 11,
        single_thread: Some(true),
        granularity: Some(1),
    }
}

#[test]
fn message_comes_back_out_of_its_envelope() {
    let sender = PeerId { owner_id: 3, id: 4 };
    let envelope = next_request().into_envelope(5, Some(4), Some(sender));
    assert_eq!(envelope.id, 5);
    assert_eq!(envelope.responding_to, Some(4));
    assert_eq!(envelope.original_sender_id, Some(sender));
    assert_eq!(DapNextRequest::from_envelope(envelope), Some(next_request()));
}

#[test]
fn envelope_of_another_kind_gives_nothing() {
    let envelope = next_request().into_envelope(1, None, None);
    assert_eq!(DapPauseRequest::from_envelope(envelope), None);
}

#[test]
fn envelope_without_payload_gives_nothing() {
    let envelope = debugger::envelope::Envelope {
        id: 1,
        responding_to: None,
        original_sender_id: None,
        payload: None,
    };
    assert_eq!(DapNextRequest::from_envelope(envelope), None);
}

#[test]
fn messages_have_names_and_priorities() {
    assert_eq!(DapNextRequest::name(), "DapNextRequest");
    assert_eq!(Ack::name(), "Ack");
    assert_eq!(Ack::priority(), MessagePriority::Foreground);
    assert_eq!(DapTerminateThreadsRequest::priority(), MessagePriority::Background);
}

#[test]
fn ack_travels_in_its_own_payload() {
    let envelope = Ack {}.into_envelope(9, Some(8), None);
    assert!(matches!(envelope.payload, Some(Payload::Ack(_))));
    assert_eq!(Ack::from_envelope(envelope), Some(Ack {}));
}

#[test]
fn entity_message_names_its_project() {
    assert_eq!(next_request().remote_entity_id(), 7);
    let terminate = DapTerminateThreadsRequest { project_id: 12, client_id: 1, thread_ids: vec![1, 2] };
    assert_eq!(terminate.remote_entity_id(), 12);
}

#[test]
fn typed_envelope_reports_its_message() {
    let received = TypedEnvelope {
        sender_id: PeerId { owner_id: 1, id: 2 },
        original_sender_id: None,
        message_id: 42,
        payload: next_request(),
    };
    assert_eq!(received.payload_type_name(), "DapNextRequest");
    assert!(received.is_background());
    assert_eq!(received.sender_id(), PeerId { owner_id: 1, id: 2 });
    assert_eq!(received.original_sender_id(), None);
    assert_eq!(received.message_id(), 42);

    let ack = TypedEnvelope {
        sender_id: PeerId { owner_id: 1, id: 2 },
        original_sender_id: Some(PeerId { owner_id: 0, id: 0 }),
        message_id: 1,
        payload: Ack {},
    };
    assert!(!ack.is_background());
    assert_eq!(ack.original_sender_id(), Some(PeerId { owner_id: 0, id: 0 }));
}
