//! The state that the handle and the worker share, and the lock around it.

use crate::slot::send_value;
use crossbeam::channel::{Receiver, Sender};
use std::sync::{Arc, Mutex, MutexGuard};
use std::task::Waker;
use vstd::prelude::*;

verus! {

/// A mutual-exclusion lock, opaque to the verifier.
#[verifier::external_type_specification]
#[verifier::external_body]
#[verifier::reject_recursive_types(T)]
pub struct ExMutex<T: ?Sized>(Mutex<T>);

/// The proof that a lock is held, opaque to the verifier.
#[verifier::external_type_specification]
#[verifier::external_body]
#[verifier::reject_recursive_types(T)]
pub struct ExMutexGuard<'a, T: ?Sized + 'a>(MutexGuard<'a, T>);

/// A scheduler's wake-handle, opaque to the verifier.
#[verifier::external_type_specification]
#[verifier::external_body]
pub struct ExWaker(Waker);

/// The record under the lock: the receiving end of the completion slot and
/// the wake-handle of the latest poll that found the slot empty.
#[verifier::reject_recursive_types(T)]
pub struct State<T> {
    pub(crate) receiver: Receiver<T>,
    pub(crate) parked: Option<Waker>,
}

impl<T> State<T> {
    /// A state with no wake-handle parked.
    pub(crate) fn new(receiver: Receiver<T>) -> (state: Self)
        ensures
            state.receiver == receiver,
            state.parked is None,
    {
        State { receiver, parked: None }
    }
}

/// Calls `Mutex::new`.
///
/// Trusted: nothing is claimed of the lock.
#[verifier::external_body]
pub(crate) fn enclose<T>(state: State<T>) -> (lock: Mutex<State<T>>) {
    Mutex::new(state)
}

/// Calls `Mutex::lock`; `None` stands for a poisoned lock.
///
/// Trusted: nothing is claimed of the result. The callers hold the lock for
/// one look or one claim and never ask for it while they hold it.
#[verifier::external_body]
pub(crate) fn acquire<'a, T>(lock: &'a Mutex<State<T>>) -> (held: Option<
    MutexGuard<'a, State<T>>,
>) {
    lock.lock().ok()
}

/// Reaches the state behind a held lock, through `DerefMut::deref_mut`.
///
/// Trusted: nothing is claimed of the state that is found there.
#[verifier::external_body]
pub(crate) fn guarded<'a, 'b, T>(held: &'a mut MutexGuard<'b, State<T>>) -> (state: &'a mut State<
    T,
>) {
    std::ops::DerefMut::deref_mut(held)
}

/// Calls `Waker::wake`.
///
/// Trusted: the call has no result.
#[verifier::external_body]
pub(crate) fn wake(handle: Waker) {
    handle.wake()
}

/// The worker's step under the lock: removes the parked wake-handle.
pub fn claim<W>(parked: &mut Option<W>) -> (taken: Option<W>)
    ensures
        taken == *old(parked),
        *final(parked) is None,
{
    parked.take()
}

/// The worker's notification: takes the parked wake-handle under the lock,
/// lets go of the lock, and only then invokes the handle. A poisoned lock has
/// nobody waiting behind it.
pub(crate) fn notify<T>(shared: &Arc<Mutex<State<T>>>) {
    let taken = match acquire(&**shared) {
        Some(mut held) => claim(&mut guarded(&mut held).parked),
        None => None,
    };
    match taken {
        Some(handle) => wake(handle),
        None => {},
    }
}

/// The worker's last two steps, in this order: the value goes into the slot,
/// then the consumer is notified.
pub(crate) fn complete<T>(shared: &Arc<Mutex<State<T>>>, sender: Sender<T>, value: T) {
    send_value(sender, value);
    notify(shared);
}

} // verus!
