//! The responding side: one [`PersonProtocol`] per local peer, and the
//! decisions it takes on each incoming stream.
//!
//! A stream is driven from outside: whoever owns the transport performs the
//! [`StreamAction`] that [`PersonProtocol::on_stream_event`] returns and
//! reports what came of it as the next [`StreamEvent`].
use vstd::prelude::*;

use std::sync::Arc;

use iroh::EndpointId;
use tokio::sync::mpsc::UnboundedSender;
use tokio::sync::oneshot::Receiver;

use crate::pending::{ChatRequest, Event, FriendRequest};
use crate::person::{Person, PersonView};
use crate::requester::{expected_chat, expected_friend, expected_person, ResponseError};
use crate::runtime::{decision_channel, send_queued};
use crate::wire::{
    decode_request, encode_person_response, encode_response, lemma_request_of, request_bytes,
    lemma_response_of, request_of, response_bytes, Request, Response, ResponseView,
};

verus! {

/// The two kinds of request that wait for a local decision.
#[derive(Clone, Copy, Debug, PartialEq, Eq, Structural)]
pub enum Approval {
    Friend,
    Chat,
}

/// Where one incoming stream stands.
#[derive(Clone, Copy, Debug, PartialEq, Eq, Structural)]
pub enum StreamState {
    /// Waiting for the request frame.
    Receiving,
    /// The pending request is being handed to the application.
    Publishing(Approval),
    /// Waiting for the application's decision.
    Deciding(Approval),
    /// The response frame is being written. `unpublished` is set where the
    /// application could not be reached and the answer is a refusal.
    Responding { answer: Request, unpublished: bool },
    /// Waiting for the peer to close the connection.
    Closing,
    /// Nothing more happens on this stream.
    Done,
}

/// What the owner of the transport reports.
#[derive(Clone, Debug, PartialEq, Eq)]
pub enum StreamEvent {
    /// The peer's request frame, read to its end.
    Received(Vec<u8>),
    /// The request frame could not be read.
    ReceiveFailed,
    /// The pending request is on the event queue.
    Published,
    /// The event queue is closed.
    PublishFailed,
    /// The application decided.
    Decided(bool),
    /// The pending request was dropped without a decision.
    DecisionDropped,
    /// The response frame is written and the stream's sending side finished.
    Sent,
    /// The response frame could not be written.
    SendFailed,
    /// The connection is closed.
    ConnectionClosed,
}

/// How a stream ended.
#[derive(Clone, Copy, Debug, PartialEq, Eq, Structural)]
pub enum StreamOutcome {
    /// The exchange went through.
    Completed,
    /// The stream was given up: a transport failure, a malformed frame, or a
    /// closed connection.
    Abandoned,
    /// The event queue was closed, so the request was refused unseen.
    Unpublished,
}

/// What the owner of the transport does next.
#[derive(Clone, Debug, PartialEq, Eq)]
pub enum StreamAction {
    /// Hand a pending request of this kind to the application
    /// ([`PersonProtocol::publish_friend_request`],
    /// [`PersonProtocol::publish_chat_request`]).
    Publish(Approval),
    /// Wait for the decision, or for the connection to close.
    AwaitDecision,
    /// Write this response frame and finish the sending side.
    Respond(Vec<u8>),
    /// Wait for the peer to close the connection.
    AwaitClose,
    /// Stop handling the stream.
    Finish(StreamOutcome),
}

/// Why a pending request could not be handed to the application.
#[derive(Clone, Copy, Debug, PartialEq, Eq, Structural)]
pub enum DispatchError {
    /// The application's end of the event queue is gone.
    EventQueueClosed,
}

pub open spec fn approval_request(k: Approval) -> Request {
    match k {
        Approval::Friend => Request::Friend,
        Approval::Chat => Request::Chat,
    }
}

/// The response that carries decision `d` on a request of kind `k`.
pub open spec fn approval_response(k: Approval, d: bool) -> ResponseView {
    match k {
        Approval::Friend => ResponseView::Friend(d),
        Approval::Chat => ResponseView::Chat(d),
    }
}

pub open spec fn finishes(s2: StreamState, a: StreamAction, o: StreamOutcome) -> bool {
    s2 == StreamState::Done && a == StreamAction::Finish(o)
}

pub open spec fn responds(a: StreamAction, m: ResponseView) -> bool {
    a matches StreamAction::Respond(f) && f@ == response_bytes(m)
}

/// One step of a stream of the peer whose profile is `person`: on event `e`
/// in state `s`, the stream moves to `s2` and asks for action `a`.
pub open spec fn steps_to(
    person: PersonView,
    s: StreamState,
    e: StreamEvent,
    s2: StreamState,
    a: StreamAction,
) -> bool {
    match s {
        StreamState::Receiving => match e {
            StreamEvent::Received(b) => match request_of(b@) {
                None => finishes(s2, a, StreamOutcome::Abandoned),
                Some(Request::Person) => {
                    &&& s2 == (StreamState::Responding { answer: Request::Person, unpublished: false })
                    &&& responds(a, ResponseView::Person(person))
                },
                Some(Request::Friend) => s2 == StreamState::Publishing(Approval::Friend) && a
                    == StreamAction::Publish(Approval::Friend),
                Some(Request::Chat) => s2 == StreamState::Publishing(Approval::Chat) && a
                    == StreamAction::Publish(Approval::Chat),
            },
            _ => finishes(s2, a, StreamOutcome::Abandoned),
        },
        StreamState::Publishing(k) => match e {
            StreamEvent::Published => s2 == StreamState::Deciding(k) && a
                == StreamAction::AwaitDecision,
            StreamEvent::PublishFailed => {
                &&& s2 == (StreamState::Responding { answer: approval_request(k), unpublished: true })
                &&& responds(a, approval_response(k, false))
            },
            _ => finishes(s2, a, StreamOutcome::Abandoned),
        },
        StreamState::Deciding(k) => match e {
            StreamEvent::Decided(d) => {
                &&& s2 == (StreamState::Responding { answer: approval_request(k), unpublished: false })
                &&& responds(a, approval_response(k, d))
            },
            StreamEvent::DecisionDropped => {
                &&& s2 == (StreamState::Responding { answer: approval_request(k), unpublished: false })
                &&& responds(a, approval_response(k, false))
            },
            _ => finishes(s2, a, StreamOutcome::Abandoned),
        },
        StreamState::Responding { answer, unpublished } => match e {
            StreamEvent::Sent => if unpublished {
                finishes(s2, a, StreamOutcome::Unpublished)
            } else if answer == Request::Chat {
                finishes(s2, a, StreamOutcome::Completed)
            } else {
                s2 == StreamState::Closing && a == StreamAction::AwaitClose
            },
            _ => if unpublished {
                finishes(s2, a, StreamOutcome::Unpublished)
            } else {
                finishes(s2, a, StreamOutcome::Abandoned)
            },
        },
        StreamState::Closing => match e {
            StreamEvent::ConnectionClosed => finishes(s2, a, StreamOutcome::Completed),
            _ => finishes(s2, a, StreamOutcome::Abandoned),
        },
        StreamState::Done => finishes(s2, a, StreamOutcome::Abandoned),
    }
}

/// The responding side of the protocol for one local peer: its published
/// profile, and the queue on which pending requests reach the application.
/// `C` is the transport's connection type.
#[verifier::reject_recursive_types(C)]
pub struct PersonProtocol<C> {
    person: Arc<Person>,
    event_sender: UnboundedSender<Event<C>>,
}

impl<C> PersonProtocol<C> {
    /// The profile this peer publishes.
    pub closed spec fn profile(&self) -> PersonView {
        self.person@
    }

    pub fn new(person: Person, event_sender: UnboundedSender<Event<C>>) -> (r: PersonProtocol<C>)
        ensures
            r.profile() == person@,
    {
        PersonProtocol { person: Arc::new(person), event_sender }
    }

    /// The profile this peer publishes.
    pub fn person(&self) -> (r: &Person)
        ensures
            r@ == self.profile(),
    {
        &self.person
    }

    /// Puts a friend request of peer `remote_id` on the event queue and
    /// returns the channel its decision will come on.
    pub fn publish_friend_request(&self, remote_id: EndpointId) -> (r: Result<
        Receiver<bool>,
        DispatchError,
    >) {
        let (sender, receiver) = decision_channel();
        let event = Event::FriendRequest(FriendRequest::new(sender, remote_id));
        match send_queued(&self.event_sender, event) {
            Ok(()) => Ok(receiver),
            Err(_) => Err(DispatchError::EventQueueClosed),
        }
    }

    /// Puts a chat request of peer `remote_id`, made on `connection`, on the
    /// event queue and returns the channel its decision will come on.
    pub fn publish_chat_request(&self, remote_id: EndpointId, connection: C) -> (r: Result<
        Receiver<bool>,
        DispatchError,
    >) {
        let (sender, receiver) = decision_channel();
        let event = Event::ChatRequest(ChatRequest::new(sender, remote_id, connection));
        match send_queued(&self.event_sender, event) {
            Ok(()) => Ok(receiver),
            Err(_) => Err(DispatchError::EventQueueClosed),
        }
    }

    /// The next state of a stream and the action it asks for.
    pub fn on_stream_event(&self, state: StreamState, event: StreamEvent) -> (r: (
        StreamState,
        StreamAction,
    ))
        ensures
            steps_to(self.profile(), state, event, r.0, r.1),
    {
        let abandoned = (StreamState::Done, StreamAction::Finish(StreamOutcome::Abandoned));
        match state {
            StreamState::Receiving => match event {
                StreamEvent::Received(b) => match decode_request(b.as_slice()) {
                    Err(_) => abandoned,
                    Ok(q) => {
                        match q {
                            Request::Person => (
                                StreamState::Responding {
                                    answer: Request::Person,
                                    unpublished: false,
                                },
                                StreamAction::Respond(encode_person_response(&self.person)),
                            ),
                            Request::Friend => (
                                StreamState::Publishing(Approval::Friend),
                                StreamAction::Publish(Approval::Friend),
                            ),
                            Request::Chat => (
                                StreamState::Publishing(Approval::Chat),
                                StreamAction::Publish(Approval::Chat),
                            ),
                        }
                    },
                },
                _ => abandoned,
            },
            StreamState::Publishing(k) => match event {
                StreamEvent::Published => (StreamState::Deciding(k), StreamAction::AwaitDecision),
                StreamEvent::PublishFailed => respond_to(k, false, true),
                _ => abandoned,
            },
            StreamState::Deciding(k) => match event {
                StreamEvent::Decided(d) => respond_to(k, d, false),
                StreamEvent::DecisionDropped => respond_to(k, false, false),
                _ => abandoned,
            },
            StreamState::Responding { answer, unpublished } => match event {
                StreamEvent::Sent => if unpublished {
                    (StreamState::Done, StreamAction::Finish(StreamOutcome::Unpublished))
                } else if answer == Request::Chat {
                    (StreamState::Done, StreamAction::Finish(StreamOutcome::Completed))
                } else {
                    (StreamState::Closing, StreamAction::AwaitClose)
                },
                _ => if unpublished {
                    (StreamState::Done, StreamAction::Finish(StreamOutcome::Unpublished))
                } else {
                    abandoned
                },
            },
            StreamState::Closing => match event {
                StreamEvent::ConnectionClosed => (
                    StreamState::Done,
                    StreamAction::Finish(StreamOutcome::Completed),
                ),
                _ => abandoned,
            },
            StreamState::Done => abandoned,
        }
    }
}

/// The response to a request of kind `k` with decision `d`, and the state
/// that writes it.
fn respond_to(k: Approval, d: bool, unpublished: bool) -> (r: (StreamState, StreamAction))
    ensures
        r.0 == (StreamState::Responding { answer: approval_request(k), unpublished }),
        responds(r.1, approval_response(k, d)),
{
    match k {
        Approval::Friend => (
            StreamState::Responding { answer: Request::Friend, unpublished },
            StreamAction::Respond(encode_response(&Response::Friend(d))),
        ),
        Approval::Chat => (
            StreamState::Responding { answer: Request::Chat, unpublished },
            StreamAction::Respond(encode_response(&Response::Chat(d))),
        ),
    }
}

/// A friend request's decision reaches the requester unchanged: a stream
/// that receives the friend request frame publishes a pending friend
/// request, waits for the decision, and on decision `d` writes the frame that
/// the requesting side reads as `d`.
pub proof fn lemma_friend_decision_fidelity(
    person: PersonView,
    request: Vec<u8>,
    d: bool,
    s1: StreamState,
    a1: StreamAction,
    s2: StreamState,
    a2: StreamAction,
    s3: StreamState,
    a3: StreamAction,
)
    requires
        request@ == request_bytes(Request::Friend),
        steps_to(person, StreamState::Receiving, StreamEvent::Received(request), s1, a1),
        steps_to(person, s1, StreamEvent::Published, s2, a2),
        steps_to(person, s2, StreamEvent::Decided(d), s3, a3),
    ensures
        a1 == StreamAction::Publish(Approval::Friend),
        a2 == StreamAction::AwaitDecision,
        a3 matches StreamAction::Respond(f) && expected_friend(f@) == Ok::<bool, ResponseError>(d),
{
    lemma_request_of(Request::Friend, request@);
    lemma_response_of(ResponseView::Friend(d));
}

/// A chat request's decision reaches the requester unchanged.
pub proof fn lemma_chat_decision_fidelity(
    person: PersonView,
    d: bool,
    s2: StreamState,
    a: StreamAction,
)
    requires
        steps_to(person, StreamState::Deciding(Approval::Chat), StreamEvent::Decided(d), s2, a),
    ensures
        a matches StreamAction::Respond(f) && expected_chat(f@) == Ok::<bool, ResponseError>(d),
{
    lemma_response_of(ResponseView::Chat(d));
}

/// Once the connection is seen closed, the stream ends at once, whatever
/// it was waiting for; a request still waiting for its decision is given
/// up.
pub proof fn lemma_closed_connection_ends_stream(
    person: PersonView,
    s: StreamState,
    s2: StreamState,
    a: StreamAction,
)
    requires
        steps_to(person, s, StreamEvent::ConnectionClosed, s2, a),
    ensures
        s2 == StreamState::Done,
        a is Finish,
        s is Deciding ==> a == StreamAction::Finish(StreamOutcome::Abandoned),
{
}

/// A request that is dropped without a decision is answered as a refusal,
/// so the requester is not left waiting.
pub proof fn lemma_dropped_decision_refuses(
    person: PersonView,
    k: Approval,
    s2: StreamState,
    a: StreamAction,
)
    requires
        steps_to(person, StreamState::Deciding(k), StreamEvent::DecisionDropped, s2, a),
    ensures
        responds(a, approval_response(k, false)),
{
}

/// A profile request is answered at once with the local profile and never
/// becomes a pending request; once the answer is sent, the stream waits for
/// the peer to close the connection.
pub proof fn lemma_profile_answered_directly(
    person: PersonView,
    request: Vec<u8>,
    s1: StreamState,
    a1: StreamAction,
    s2: StreamState,
    a2: StreamAction,
)
    requires
        request@ == request_bytes(Request::Person),
        response_bytes(ResponseView::Person(person)).len() <= usize::MAX,
        steps_to(person, StreamState::Receiving, StreamEvent::Received(request), s1, a1),
        steps_to(person, s1, StreamEvent::Sent, s2, a2),
    ensures
        a1 matches StreamAction::Respond(f) && expected_person(f@) == Ok::<
            PersonView,
            ResponseError,
        >(person),
        s2 == StreamState::Closing,
        a2 == StreamAction::AwaitClose,
{
    lemma_request_of(Request::Person, request@);
    lemma_response_of(ResponseView::Person(person));
}

/// Once a chat answer is sent, the stream is done without waiting for the
/// connection to close: the connection stays open for the chat.
pub proof fn lemma_chat_keeps_connection(
    person: PersonView,
    s2: StreamState,
    a2: StreamAction,
)
    requires
        steps_to(
            person,
            StreamState::Responding { answer: Request::Chat, unpublished: false },
            StreamEvent::Sent,
            s2,
            a2,
        ),
    ensures
        a2 == StreamAction::Finish(StreamOutcome::Completed),
{
}

} // verus!
