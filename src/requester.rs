//! The requesting side: what each request's response frame means to the
//! one who asked.
use vstd::prelude::*;

use crate::person::{Person, PersonView};
use crate::wire::{
    decode_response, lemma_response_of, response_bytes, response_of, Response, ResponseView,
};

verus! {

/// Why a response frame does not answer the request that was sent.
#[derive(Clone, Copy, Debug, PartialEq, Eq, Structural)]
pub enum ResponseError {
    /// The frame is not the encoding of any response.
    Malformed,
    /// The frame is a response of another kind than the request.
    Mismatch,
}

/// What a profile request learns from the response frame `bytes`.
pub open spec fn expected_person(bytes: Seq<u8>) -> Result<PersonView, ResponseError> {
    match response_of(bytes) {
        None => Err(ResponseError::Malformed),
        Some(ResponseView::Person(p)) => Ok(p),
        Some(_) => Err(ResponseError::Mismatch),
    }
}

/// What a friend request learns from the response frame `bytes`.
pub open spec fn expected_friend(bytes: Seq<u8>) -> Result<bool, ResponseError> {
    match response_of(bytes) {
        None => Err(ResponseError::Malformed),
        Some(ResponseView::Friend(d)) => Ok(d),
        Some(_) => Err(ResponseError::Mismatch),
    }
}

/// What a chat request learns from the response frame `bytes`.
pub open spec fn expected_chat(bytes: Seq<u8>) -> Result<bool, ResponseError> {
    match response_of(bytes) {
        None => Err(ResponseError::Malformed),
        Some(ResponseView::Chat(d)) => Ok(d),
        Some(_) => Err(ResponseError::Mismatch),
    }
}

/// Decodes a response frame and states which response it is.
fn read_response(bytes: &[u8]) -> (r: Option<Response>)
    ensures
        match response_of(bytes@) {
            None => r is None,
            Some(m) => r matches Some(x) && x@ == m,
        },
{
    let total = bytes.len();
    match decode_response(bytes) {
        Ok(m) => {
            proof {
                lemma_response_of(m@);
            }
            Some(m)
        },
        Err(_) => {
            assert(total as int <= usize::MAX);
            None
        },
    }
}

/// The profile that the response frame `bytes` carries.
pub fn read_person_response(bytes: &[u8]) -> (r: Result<Person, ResponseError>)
    ensures
        match expected_person(bytes@) {
            Ok(p) => r matches Ok(x) && x@ == p,
            Err(e) => r == Err::<Person, ResponseError>(e),
        },
{
    match read_response(bytes) {
        None => Err(ResponseError::Malformed),
        Some(Response::Person(p)) => Ok(p),
        Some(_) => Err(ResponseError::Mismatch),
    }
}

/// The decision on a friend request that the response frame `bytes`
/// carries.
pub fn read_friend_response(bytes: &[u8]) -> (r: Result<bool, ResponseError>)
    ensures
        r == expected_friend(bytes@),
{
    match read_response(bytes) {
        None => Err(ResponseError::Malformed),
        Some(Response::Friend(d)) => Ok(d),
        Some(_) => Err(ResponseError::Mismatch),
    }
}

/// The decision on a chat request that the response frame `bytes` carries.
pub fn read_chat_response(bytes: &[u8]) -> (r: Result<bool, ResponseError>)
    ensures
        r == expected_chat(bytes@),
{
    match read_response(bytes) {
        None => Err(ResponseError::Malformed),
        Some(Response::Chat(d)) => Ok(d),
        Some(_) => Err(ResponseError::Mismatch),
    }
}

/// A friend request answered with a response of any other kind fails with
/// `Mismatch`; no decision is read into it.
pub proof fn lemma_friend_mismatch_rejected(m: ResponseView)
    requires
        !(m is Friend),
        response_bytes(m).len() <= usize::MAX,
    ensures
        expected_friend(response_bytes(m)) == Err::<bool, ResponseError>(ResponseError::Mismatch),
{
    lemma_response_of(m);
}

} // verus!
