//! Profile exchange and approval-gated friend and chat requests between
//! two peers over an established point-to-point connection.
//!
//! The library holds the wire format of the `person/v1` protocol, the
//! per-stream decisions of the responder, the meaning of response frames on
//! the requesting side, and the pending-request values that hand a remote
//! peer's request to the local application until it is accepted or rejected.

mod handler;
mod option_ext;
mod pending;
mod person;
mod requester;
mod runtime;
mod wire;

pub use handler::{
    Approval, DispatchError, PersonProtocol, StreamAction, StreamEvent, StreamOutcome,
    StreamState,
};
pub use option_ext::{EmptyValue, OptionGet};
pub use pending::{ChatRequest, Event, FriendRequest, PersonProtocolEvent, Undelivered};
pub use person::{Person, PersonView};
pub use runtime::Delivered;
pub use requester::{read_chat_response, read_friend_response, read_person_response, ResponseError};
pub use wire::{
    decode_request, decode_response, encode_person_response, encode_request, encode_response,
    DecodeError, Request, Response, ResponseView,
};
