//! Requests of remote peers that wait for a local decision.
//!
//! Each pending request owns the sending half of a single-use channel whose
//! receiving half the responder waits on. Accepting or rejecting consumes the
//! value, so a request is decided at most once.
use vstd::prelude::*;
use vstd::string::StringExecFns;

use iroh::EndpointId;
use tokio::sync::oneshot::Sender;

use crate::runtime::{send_decision, Delivered};

verus! {

/// A decision that could not be delivered because the responder no longer
/// waits for it.
#[derive(Clone, Copy, Debug, PartialEq, Eq, Structural)]
pub struct Undelivered {
    pub decision: bool,
}

/// A remote peer asks to become friends.
pub struct FriendRequest {
    response_sender: Sender<bool>,
    remote_id: EndpointId,
}

impl FriendRequest {
    /// A friend request of peer `remote_id` whose decision goes to
    /// `response_sender`.
    pub fn new(response_sender: Sender<bool>, remote_id: EndpointId) -> (r: FriendRequest)
        ensures
            r.remote() == remote_id,
            r.sender() == response_sender,
    {
        FriendRequest { response_sender, remote_id }
    }

    /// The identity of the peer that asks.
    pub closed spec fn remote(&self) -> EndpointId {
        self.remote_id
    }

    /// The channel the decision goes to.
    pub closed spec fn sender(&self) -> Sender<bool> {
        self.response_sender
    }

    /// The identity of the peer that asks.
    pub fn remote_id(&self) -> (r: EndpointId)
        ensures
            r == self.remote(),
    {
        self.remote_id
    }

    /// Answers yes: hands `true` to the waiting responder. Fails where the
    /// responder no longer waits for the answer.
    pub fn accept(self) -> (r: Result<Delivered, Undelivered>)
        ensures
            r matches Ok(t) ==> t@,
            r matches Err(u) ==> u.decision,
    {
        match send_decision(self.response_sender, true) {
            Ok(t) => Ok(t),
            Err(d) => Err(Undelivered { decision: d }),
        }
    }

    /// Answers no: hands `false` to the waiting responder. Fails where the
    /// responder no longer waits for the answer.
    pub fn reject(self) -> (r: Result<Delivered, Undelivered>)
        ensures
            r matches Ok(t) ==> !t@,
            r matches Err(u) ==> !u.decision,
    {
        match send_decision(self.response_sender, false) {
            Ok(t) => Ok(t),
            Err(d) => Err(Undelivered { decision: d }),
        }
    }
}

/// A remote peer asks to open a chat over the connection `C` it asked on.
pub struct ChatRequest<C> {
    response_sender: Sender<bool>,
    remote_id: EndpointId,
    connection: C,
}

impl<C> ChatRequest<C> {
    /// A chat request of peer `remote_id`, made on `connection`, whose
    /// decision goes to `response_sender`.
    pub fn new(response_sender: Sender<bool>, remote_id: EndpointId, connection: C) -> (r:
        ChatRequest<C>)
        ensures
            r.remote() == remote_id,
            r.connection() == connection,
            r.sender() == response_sender,
    {
        ChatRequest { response_sender, remote_id, connection }
    }

    /// The identity of the peer that asks.
    pub closed spec fn remote(&self) -> EndpointId {
        self.remote_id
    }

    /// The connection the request came on.
    pub closed spec fn connection(&self) -> C {
        self.connection
    }

    /// The channel the decision goes to.
    pub closed spec fn sender(&self) -> Sender<bool> {
        self.response_sender
    }

    /// The identity of the peer that asks.
    pub fn remote_id(&self) -> (r: EndpointId)
        ensures
            r == self.remote(),
    {
        self.remote_id
    }

    /// Answers yes: hands `true` to the waiting responder, and the
    /// connection the request came on to the caller, for the chat that
    /// follows. Fails where the responder no longer waits for the answer;
    /// the connection is then dropped.
    pub fn accept(self) -> (r: Result<(C, Delivered), Undelivered>)
        ensures
            r matches Ok((c, t)) ==> c == self.connection() && t@,
            r matches Err(u) ==> u.decision,
    {
        match send_decision(self.response_sender, true) {
            Ok(t) => Ok((self.connection, t)),
            Err(d) => Err(Undelivered { decision: d }),
        }
    }

    /// Answers no: hands `false` to the waiting responder; the connection is
    /// left to close by itself. Fails where the responder no longer waits for
    /// the answer.
    pub fn reject(self) -> (r: Result<Delivered, Undelivered>)
        ensures
            r matches Ok(t) ==> !t@,
            r matches Err(u) ==> !u.decision,
    {
        match send_decision(self.response_sender, false) {
            Ok(t) => Ok(t),
            Err(d) => Err(Undelivered { decision: d }),
        }
    }
}

/// A pending request, as the application receives it.
pub enum Event<C> {
    FriendRequest(FriendRequest),
    ChatRequest(ChatRequest<C>),
}

/// The name of an event's kind.
pub open spec fn event_kind<C>(e: Event<C>) -> Seq<char> {
    match e {
        Event::FriendRequest(_) => "FriendRequest"@,
        Event::ChatRequest(_) => "ChatRequest"@,
    }
}

/// An event handed to the application, which tells its kind before it is
/// taken apart.
pub struct PersonProtocolEvent<C>(Event<C>);

impl<C> PersonProtocolEvent<C> {
    /// The event inside.
    pub closed spec fn event(&self) -> Event<C> {
        self.0
    }

    pub fn new(inner: Event<C>) -> (r: PersonProtocolEvent<C>)
        ensures
            r.event() == inner,
    {
        PersonProtocolEvent(inner)
    }

    /// `"FriendRequest"` or `"ChatRequest"`.
    pub fn kind(&self) -> (r: String)
        ensures
            r@ == event_kind(self.event()),
    {
        match &self.0 {
            Event::FriendRequest(_) => String::from_str("FriendRequest"),
            Event::ChatRequest(_) => String::from_str("ChatRequest"),
        }
    }

    /// The friend request inside, or the event itself where it is another
    /// kind.
    pub fn as_friend_request(self) -> (r: Result<FriendRequest, PersonProtocolEvent<C>>)
        ensures
            match self.event() {
                Event::FriendRequest(f) => r == Ok::<FriendRequest, PersonProtocolEvent<C>>(f),
                Event::ChatRequest(_) => r == Err::<FriendRequest, PersonProtocolEvent<C>>(self),
            },
    {
        match self.0 {
            Event::FriendRequest(f) => Ok(f),
            other => Err(PersonProtocolEvent(other)),
        }
    }

    /// The chat request inside, or the event itself where it is another
    /// kind.
    pub fn as_chat_request(self) -> (r: Result<ChatRequest<C>, PersonProtocolEvent<C>>)
        ensures
            match self.event() {
                Event::ChatRequest(c) => r == Ok::<ChatRequest<C>, PersonProtocolEvent<C>>(c),
                Event::FriendRequest(_) => r == Err::<ChatRequest<C>, PersonProtocolEvent<C>>(self),
            },
    {
        match self.0 {
            Event::ChatRequest(c) => Ok(c),
            other => Err(PersonProtocolEvent(other)),
        }
    }
}

} // verus!
