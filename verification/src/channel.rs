//! The queue between submitters and the runner: tokio's unbounded channel.
//!
//! Nothing here is proved. The two ends share state that other holders change,
//! so no contract below says what a call on the queue returns.

use std::rc::Rc;
use tokio::sync::mpsc::error::TryRecvError;
use tokio::sync::mpsc::{UnboundedReceiver, UnboundedSender};
use vstd::prelude::*;

verus! {

/// `tokio::sync::mpsc::UnboundedSender`, the sending end.
#[verifier::external_type_specification]
#[verifier::external_body]
#[verifier::reject_recursive_types(T)]
pub struct ExUnboundedSender<T>(UnboundedSender<T>);

/// `tokio::sync::mpsc::UnboundedReceiver`, the receiving end.
#[verifier::external_type_specification]
#[verifier::external_body]
#[verifier::reject_recursive_types(T)]
pub struct ExUnboundedReceiver<T>(UnboundedReceiver<T>);

/// What the receiving end reports when asked for the next item.
pub enum QueueEvent<R> {
    /// An item was waiting; it has left the queue.
    Request(R),
    /// Nothing is waiting, and a sender is still alive.
    Empty,
    /// Nothing is waiting, and nothing will come: every sender is gone.
    Closed,
}

/// `tokio::sync::mpsc::unbounded_channel`: makes both ends of a new queue.
/// Nothing is claimed of them.
#[verifier::external_body]
pub(crate) fn open<R>() -> (ends: (UnboundedSender<R>, UnboundedReceiver<R>)) {
    tokio::sync::mpsc::unbounded_channel()
}

/// `UnboundedSender::send`: hands `item` to the queue without waiting. Returns
/// whether the queue took it; it refuses once the receiving end is closed or
/// dropped, which no argument shows, so nothing is claimed of the result.
#[verifier::external_body]
pub(crate) fn send<R>(sender: &UnboundedSender<R>, item: R) -> (taken: bool) {
    sender.send(item).is_ok()
}

/// `UnboundedReceiver::try_recv`: takes the next waiting item, if there is one,
/// and otherwise tells an empty queue from a closed one. What comes back depends
/// on the senders, so nothing is claimed of it.
#[verifier::external_body]
pub(crate) fn try_receive<R>(receiver: &mut UnboundedReceiver<R>) -> (event: QueueEvent<R>) {
    match receiver.try_recv() {
        Ok(item) => QueueEvent::Request(item),
        Err(TryRecvError::Empty) => QueueEvent::Empty,
        Err(TryRecvError::Disconnected) => QueueEvent::Closed,
    }
}

/// `Rc::clone`: a second handle to the same shared value.
#[verifier::external_body]
pub(crate) fn share<V>(handle: &Rc<V>) -> (second: Rc<V>)
    ensures
        second == *handle,
{
    Rc::clone(handle)
}

} // verus!
