use person_protocol::{
    encode_person_response, encode_request, read_chat_response, read_friend_response,
    read_person_response, Approval, ChatRequest, DispatchError, EmptyValue, Event, FriendRequest,
    OptionGet, Person, PersonProtocol, PersonProtocolEvent, Request, StreamAction, StreamEvent, StreamOutcome,
    StreamState, Undelivered,
};
use tokio::sync::mpsc::{unbounded_channel, UnboundedReceiver};

type Conn = u32;

fn alice() -> Person {
    Person::new("Alice".to_string(), None, "hi".to_string())
}

fn peer() -> iroh::EndpointId {
    iroh::SecretKey::from_bytes(&[7u8; 32]).public()
}

fn responder() -> (PersonProtocol<Conn>, UnboundedReceiver<Event<Conn>>) {
    let (tx, rx) = unbounded_channel();
    (PersonProtocol::new(alice(), tx), rx)
}

fn frame_of(action: &StreamAction) -> Vec<u8> {
    match action {
        StreamAction::Respond(f) => f.clone(),
        other => panic!("expected a response, got {:?}", other),
    }
}

fn drive_friend_request(decide: bool) -> bool {
    let (protocol, mut events) = responder();
    let request = encode_request(Request::Friend);
    let (state, action) =
        protocol.on_stream_event(StreamState::Receiving, StreamEvent::Received(request));
    assert_eq!(action, StreamAction::Publish(Approval::Friend));
    let mut decision = protocol.publish_friend_request(peer()).unwrap();
    let (state, action) = protocol.on_stream_event(state, StreamEvent::Published);
    assert_eq!(action, StreamAction::AwaitDecision);
    let event = PersonProtocolEvent::new(events.try_recv().unwrap());
    let pending = match event.as_friend_request() {
        Ok(f) => f,
        Err(_) => panic!("expected a friend request"),
    };
    assert_eq!(pending.remote_id(), peer());
    let delivered = if decide { pending.accept().unwrap() } else { pending.reject().unwrap() };
    assert_eq!(delivered.decision(), decide);
    let d = decision.try_recv().unwrap();
    let (_, action) = protocol.on_stream_event(state, StreamEvent::Decided(d));
    read_friend_response(&frame_of(&action)).unwrap()
}

#[test]
fn friend_decision_reaches_requester() {
    assert!(drive_friend_request(true));
    assert!(!drive_friend_request(false));
}

#[test]
fn profile_request_answers_without_event() {
    let (protocol, mut events) = responder();
    let (state, action) = protocol.on_stream_event(
        StreamState::Receiving,
        StreamEvent::Received(encode_request(Request::Person)),
    );
    assert_eq!(
        state,
        StreamState::Responding { answer: Request::Person, unpublished: false }
    );
    assert_eq!(read_person_response(&frame_of(&action)), Ok(alice()));
    assert_eq!(frame_of(&action), encode_person_response(&alice()));
    assert!(events.try_recv().is_err());
    assert_eq!(protocol.person(), &alice());
}

#[test]
fn profile_exchange_waits_for_close() {
    let (protocol, _events) = responder();
    let responding = StreamState::Responding { answer: Request::Person, unpublished: false };
    let (state, action) = protocol.on_stream_event(responding, StreamEvent::Sent);
    assert_eq!((state, action), (StreamState::Closing, StreamAction::AwaitClose));
    let (state, action) = protocol.on_stream_event(state, StreamEvent::ConnectionClosed);
    assert_eq!(state, StreamState::Done);
    assert_eq!(action, StreamAction::Finish(StreamOutcome::Completed));
}

#[test]
fn friend_exchange_waits_for_close() {
    let (protocol, _events) = responder();
    let responding = StreamState::Responding { answer: Request::Friend, unpublished: false };
    let (state, action) = protocol.on_stream_event(responding, StreamEvent::Sent);
    assert_eq!((state, action), (StreamState::Closing, StreamAction::AwaitClose));
}

#[test]
fn chat_exchange_keeps_connection() {
    let (protocol, _events) = responder();
    let responding = StreamState::Responding { answer: Request::Chat, unpublished: false };
    let (state, action) = protocol.on_stream_event(responding, StreamEvent::Sent);
    assert_eq!(state, StreamState::Done);
    assert_eq!(action, StreamAction::Finish(StreamOutcome::Completed));
}

#[test]
fn accepted_chat_hands_over_same_connection() {
    let (protocol, mut events) = responder();
    let (state, action) = protocol.on_stream_event(
        StreamState::Receiving,
        StreamEvent::Received(encode_request(Request::Chat)),
    );
    assert_eq!(action, StreamAction::Publish(Approval::Chat));
    let mut decision = protocol.publish_chat_request(peer(), 42).unwrap();
    let (state, _) = protocol.on_stream_event(state, StreamEvent::Published);
    let event = PersonProtocolEvent::new(events.try_recv().unwrap());
    assert_eq!(event.kind(), "ChatRequest");
    let pending = match event.as_chat_request() {
        Ok(c) => c,
        Err(_) => panic!("expected a chat request"),
    };
    assert_eq!(pending.remote_id(), peer());
    let (connection, delivered) = pending.accept().ok().unwrap();
    assert_eq!(connection, 42);
    assert!(delivered.decision());
    let d = decision.try_recv().unwrap();
    let (_, action) = protocol.on_stream_event(state, StreamEvent::Decided(d));
    assert_eq!(read_chat_response(&frame_of(&action)), Ok(true));
}

#[test]
fn rejected_chat_answers_false() {
    let (protocol, mut events) = responder();
    let mut decision = protocol.publish_chat_request(peer(), 5).unwrap();
    let pending = match events.try_recv().unwrap() {
        Event::ChatRequest(c) => c,
        Event::FriendRequest(_) => panic!("expected a chat request"),
    };
    assert!(!pending.reject().unwrap().decision());
    assert_eq!(decision.try_recv().ok(), Some(false));
    let (_, action) =
        protocol.on_stream_event(StreamState::Deciding(Approval::Chat), StreamEvent::Decided(false));
    assert_eq!(read_chat_response(&frame_of(&action)), Ok(false));
}

#[test]
fn closed_connection_releases_waiting_stream() {
    let (protocol, _events) = responder();
    for k in [Approval::Friend, Approval::Chat] {
        let (state, action) =
            protocol.on_stream_event(StreamState::Deciding(k), StreamEvent::ConnectionClosed);
        assert_eq!(state, StreamState::Done);
        assert_eq!(action, StreamAction::Finish(StreamOutcome::Abandoned));
    }
    let (state, action) = protocol
        .on_stream_event(StreamState::Publishing(Approval::Friend), StreamEvent::ConnectionClosed);
    assert_eq!((state, action), (StreamState::Done, StreamAction::Finish(StreamOutcome::Abandoned)));
}

#[test]
fn dropped_pending_request_answers_false() {
    let (protocol, mut events) = responder();
    let mut decision = protocol.publish_friend_request(peer()).unwrap();
    drop(events.try_recv().unwrap());
    assert!(decision.try_recv().is_err());
    let (state, action) = protocol
        .on_stream_event(StreamState::Deciding(Approval::Friend), StreamEvent::DecisionDropped);
    assert_eq!(
        state,
        StreamState::Responding { answer: Request::Friend, unpublished: false }
    );
    assert_eq!(read_friend_response(&frame_of(&action)), Ok(false));
}

#[test]
fn closed_event_queue_refuses_request() {
    let (protocol, events) = responder();
    drop(events);
    assert_eq!(
        protocol.publish_friend_request(peer()).err(),
        Some(DispatchError::EventQueueClosed)
    );
    assert_eq!(
        protocol.publish_chat_request(peer(), 1).err(),
        Some(DispatchError::EventQueueClosed)
    );
    let (state, action) = protocol
        .on_stream_event(StreamState::Publishing(Approval::Friend), StreamEvent::PublishFailed);
    assert_eq!(state, StreamState::Responding { answer: Request::Friend, unpublished: true });
    assert_eq!(read_friend_response(&frame_of(&action)), Ok(false));
    let (state, action) = protocol.on_stream_event(state, StreamEvent::Sent);
    assert_eq!((state, action), (StreamState::Done, StreamAction::Finish(StreamOutcome::Unpublished)));
}

#[test]
fn decision_after_handler_left_is_undelivered() {
    let (protocol, mut events) = responder();
    let decision = protocol.publish_friend_request(peer()).unwrap();
    drop(decision);
    let pending = match events.try_recv().unwrap() {
        Event::FriendRequest(f) => f,
        Event::ChatRequest(_) => panic!("expected a friend request"),
    };
    assert_eq!(pending.accept(), Err(Undelivered { decision: true }));
    let decision = protocol.publish_friend_request(peer()).unwrap();
    drop(decision);
    let pending = match events.try_recv().unwrap() {
        Event::FriendRequest(f) => f,
        Event::ChatRequest(_) => panic!("expected a friend request"),
    };
    assert_eq!(pending.reject(), Err(Undelivered { decision: false }));
    let decision = protocol.publish_chat_request(peer(), 3).unwrap();
    drop(decision);
    let pending = match events.try_recv().unwrap() {
        Event::ChatRequest(c) => c,
        Event::FriendRequest(_) => panic!("expected a chat request"),
    };
    assert_eq!(pending.accept().err(), Some(Undelivered { decision: true }));
    let decision = protocol.publish_chat_request(peer(), 4).unwrap();
    drop(decision);
    let pending = match events.try_recv().unwrap() {
        Event::ChatRequest(c) => c,
        Event::FriendRequest(_) => panic!("expected a chat request"),
    };
    assert_eq!(pending.reject(), Err(Undelivered { decision: false }));
}

#[test]
fn malformed_request_abandons_stream() {
    let (protocol, mut events) = responder();
    let (state, action) =
        protocol.on_stream_event(StreamState::Receiving, StreamEvent::Received(vec![9]));
    assert_eq!((state, action), (StreamState::Done, StreamAction::Finish(StreamOutcome::Abandoned)));
    let (state, action) = protocol.on_stream_event(StreamState::Receiving, StreamEvent::ReceiveFailed);
    assert_eq!((state, action), (StreamState::Done, StreamAction::Finish(StreamOutcome::Abandoned)));
    assert!(events.try_recv().is_err());
}

#[test]
fn failed_send_abandons_stream() {
    let (protocol, _events) = responder();
    let responding = StreamState::Responding { answer: Request::Friend, unpublished: false };
    let (state, action) = protocol.on_stream_event(responding, StreamEvent::SendFailed);
    assert_eq!((state, action), (StreamState::Done, StreamAction::Finish(StreamOutcome::Abandoned)));
}

#[test]
fn event_kind_names() {
    let (protocol, mut events) = responder();
    protocol.publish_friend_request(peer()).unwrap();
    let event = PersonProtocolEvent::new(events.try_recv().unwrap());
    assert_eq!(event.kind(), "FriendRequest");
    let event = match event.as_chat_request() {
        Ok(_) => panic!("a friend request is no chat request"),
        Err(e) => e,
    };
    assert_eq!(event.kind(), "FriendRequest");
    assert!(event.as_friend_request().is_ok());
}

#[test]
fn pending_requests_built_directly_deliver_their_decision() {
    let (sender, mut receiver) = tokio::sync::oneshot::channel();
    let pending = FriendRequest::new(sender, peer());
    assert_eq!(pending.remote_id(), peer());
    assert!(!pending.reject().unwrap().decision());
    assert_eq!(receiver.try_recv().ok(), Some(false));
    let (sender, mut receiver) = tokio::sync::oneshot::channel();
    let pending = ChatRequest::new(sender, peer(), 9u32);
    assert_eq!(pending.remote_id(), peer());
    let (connection, delivered) = pending.accept().ok().unwrap();
    assert_eq!((connection, delivered.decision()), (9, true));
    assert_eq!(receiver.try_recv().ok(), Some(true));
}

#[test]
fn option_get_reports_empty_value() {
    let some: Option<u8> = Some(3);
    let none: Option<u8> = None;
    assert_eq!(some.get(), Ok(&3));
    assert_eq!(none.get(), Err(EmptyValue));
    assert_eq!(some.get_move(), Ok(3));
    assert_eq!(none.get_move(), Err(EmptyValue));
}
