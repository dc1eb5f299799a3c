//! The queue between the callers and the worker: an unbounded channel of
//! `crossbeam_channel`. Callers on any thread hold the sending end, the
//! worker alone holds the receiving end.
//!
//! Other threads fill the queue while the worker reads it, so nothing here
//! says what the queue holds: the contracts state only what holds of every
//! outcome of a call.

use crate::publication::Publication;
use crossbeam_channel::{Receiver, Sender};
use vstd::prelude::*;

verus! {

/// `crossbeam_channel::Sender`, the sending end of a channel. Opaque.
#[verifier::external_type_specification]
#[verifier::external_body]
#[verifier::reject_recursive_types(T)]
pub struct ExSender<T>(Sender<T>);

/// `crossbeam_channel::Receiver`, the receiving end of a channel. Opaque.
#[verifier::external_type_specification]
#[verifier::external_body]
#[verifier::reject_recursive_types(T)]
pub struct ExReceiver<T>(Receiver<T>);

/// `crossbeam_channel::unbounded`: a new channel of unlimited capacity, as
/// its two ends. Nothing is claimed of them.
#[verifier::external_body]
pub(crate) fn open_queue() -> (ends: (Sender<Publication>, Receiver<Publication>)) {
    crossbeam_channel::unbounded()
}

/// `Sender::send`: puts `message` into the channel, or, when the channel is
/// disconnected, hands it back. Claimed: a message that comes back is the one
/// that was given.
#[verifier::external_body]
pub(crate) fn push(sender: &Sender<Publication>, message: Publication) -> (refused: Option<
    Publication,
>)
    ensures
        refused matches Some(back) ==> back == message,
{
    match sender.send(message) {
        Ok(()) => None,
        Err(crossbeam_channel::SendError(back)) => Some(back),
    }
}

/// `Receiver::len`: the number of messages in the channel at the instant of
/// the call. Nothing is claimed of it.
#[verifier::external_body]
pub(crate) fn depth(receiver: &Receiver<Publication>) -> (n: usize) {
    receiver.len()
}

/// `Receiver::recv`: blocks until a message arrives and returns it, or
/// returns nothing once the channel is empty and every sender is gone.
/// Nothing is claimed of the result.
#[verifier::external_body]
pub(crate) fn pull(receiver: &Receiver<Publication>) -> (arrival: Option<Publication>) {
    receiver.recv().ok()
}

} // verus!
