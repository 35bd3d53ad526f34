//! The transport's and the async runtime's types that the library carries
//! without looking inside them, and the few calls it makes on them.
use vstd::prelude::*;

use iroh::PublicKey;
use tokio::sync::mpsc::UnboundedSender;
use tokio::sync::oneshot::error::RecvError;
use tokio::sync::oneshot::{Receiver, Sender};

verus! {

/// A peer's public key, which is its identity (iroh's `EndpointId`).
#[verifier::external_type_specification]
#[verifier::external_body]
pub struct ExPublicKey(PublicKey);

/// The sending half of a single-use channel.
#[verifier::external_type_specification]
#[verifier::external_body]
#[verifier::reject_recursive_types(T)]
pub struct ExSender<T>(Sender<T>);

/// The receiving half of a single-use channel.
#[verifier::external_type_specification]
#[verifier::external_body]
#[verifier::reject_recursive_types(T)]
pub struct ExReceiver<T>(Receiver<T>);

/// Why a single-use channel delivered nothing. Declared because the
/// receiving half's `Future` impl names it as its output.
#[verifier::external_type_specification]
#[verifier::external_body]
pub struct ExRecvError(RecvError);

/// The sending half of an unbounded queue.
#[verifier::external_type_specification]
#[verifier::external_body]
#[verifier::reject_recursive_types(T)]
pub struct ExUnboundedSender<T>(UnboundedSender<T>);

/// Relies on `tokio::sync::oneshot::channel`: a fresh single-use channel for
/// one decision.
#[verifier::external_body]
pub(crate) fn decision_channel() -> (r: (Sender<bool>, Receiver<bool>)) {
    tokio::sync::oneshot::channel()
}

/// Proof that a decision was handed to the waiting responder. Only
/// [`send_decision`] makes one; its view is the decision handed over.
#[derive(Clone, Copy, Debug, PartialEq, Eq)]
pub struct Delivered {
    decision: bool,
}

impl View for Delivered {
    type V = bool;

    closed spec fn view(&self) -> bool {
        self.decision
    }
}

impl Delivered {
    /// The decision that was handed over.
    pub fn decision(&self) -> (r: bool)
        ensures
            r == self@,
    {
        self.decision
    }
}

/// Relies on tokio's `oneshot::Sender::send`: on success `decision` is the
/// value stored for the receiving half; where the receiving half is gone,
/// the value is handed back unchanged.
#[verifier::external_body]
pub(crate) fn send_decision(sender: Sender<bool>, decision: bool) -> (r: Result<Delivered, bool>)
    ensures
        r matches Ok(t) ==> t@ == decision,
        r matches Err(v) ==> v == decision,
{
    sender.send(decision).map(|()| Delivered { decision })
}

/// Relies on tokio's `mpsc::UnboundedSender::send`: it never waits, and where
/// the receiving half is closed the message is handed back unchanged.
#[verifier::external_body]
pub(crate) fn send_queued<T>(sender: &UnboundedSender<T>, message: T) -> (r: Result<(), T>)
    ensures
        r matches Err(m) ==> m == message,
{
    sender.send(message).map_err(|e| e.0)
}

} // verus!
