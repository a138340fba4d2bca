//! The completion slot: a single-use, capacity-one transfer of one value from
//! the worker to the poller, carried by a bounded channel.

use crossbeam::channel::{Receiver, Sender};
use vstd::prelude::*;

verus! {

/// The sending end of a channel, opaque to the verifier.
#[verifier::external_type_specification]
#[verifier::external_body]
#[verifier::reject_recursive_types(T)]
pub struct ExSender<T>(Sender<T>);

/// The receiving end of a channel, opaque to the verifier.
#[verifier::external_type_specification]
#[verifier::external_body]
#[verifier::reject_recursive_types(T)]
pub struct ExReceiver<T>(Receiver<T>);

/// What one non-blocking look into the completion slot found.
pub enum Reception<T> {
    /// The value was there; the slot is now drained.
    Ready(T),
    /// The producer has not sent yet.
    Empty,
    /// The producing end is gone and the slot holds nothing.
    Closed,
}

/// Calls `crossbeam::channel::bounded` with capacity one.
///
/// Trusted: nothing is claimed of the two ends. They belong to one fresh
/// channel that has room for a single message.
#[verifier::external_body]
pub(crate) fn open_slot<T>() -> (ends: (Sender<T>, Receiver<T>)) {
    crossbeam::channel::bounded(1)
}

/// Calls `Sender::send` and drops the sending end.
///
/// Trusted: the wrapper has no result. The sender is taken by value and a
/// slot is opened with one sender, so each slot sees at most one send, which
/// finds the one place free and does not block. A send into a slot whose
/// receiving end is gone is discarded.
#[verifier::external_body]
pub(crate) fn send_value<T>(sender: Sender<T>, value: T) {
    let _ = sender.send(value);
}

/// Calls `Receiver::try_recv`.
///
/// Trusted: nothing is claimed of the result. Which of the three outcomes
/// comes back depends on what the other side has done by now.
#[verifier::external_body]
pub(crate) fn try_receive<T>(receiver: &Receiver<T>) -> (found: Reception<T>) {
    match receiver.try_recv() {
        Ok(value) => Reception::Ready(value),
        Err(crossbeam::channel::TryRecvError::Empty) => Reception::Empty,
        Err(crossbeam::channel::TryRecvError::Disconnected) => Reception::Closed,
    }
}

} // verus!
