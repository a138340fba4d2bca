//! The handle that the consumer polls.

use crate::outcome::{resolve, Failure};
use crate::shared::{acquire, guarded, State};
use crate::slot::try_receive;
use std::future::Future;
use std::pin::Pin;
use std::sync::{Arc, Mutex};
use std::task::{Context, Poll, Waker};
use vstd::prelude::*;

verus! {

/// A pinned pointer, opaque to the verifier.
#[verifier::external_type_specification]
#[verifier::external_body]
#[verifier::reject_recursive_types(Ptr)]
pub struct ExPin<Ptr>(Pin<Ptr>);

/// The context of a poll, opaque to the verifier.
#[verifier::external_type_specification]
#[verifier::external_body]
pub struct ExContext<'a>(Context<'a>);

/// A future for work that was handed to the thread pool. It completes with the
/// closure's value, or with the reason why there is none.
#[verifier::reject_recursive_types(T)]
pub struct RayonFuture<T> {
    shared: Arc<Mutex<State<T>>>,
    finished: bool,
}

/// Calls `Pin::get_mut`.
///
/// Trusted: nothing is claimed of the reference.
#[verifier::external_body]
fn unpinned<'a, T>(pinned: Pin<&'a mut RayonFuture<T>>) -> (handle: &'a mut RayonFuture<T>) {
    Pin::get_mut(pinned)
}

/// Calls `Context::waker`.
///
/// Trusted: nothing is claimed of the wake-handle.
#[verifier::external_body]
fn waker_of<'a, 'b>(cx: &'a Context<'b>) -> (handle: &'a Waker) {
    cx.waker()
}

impl<T> RayonFuture<T> {
    /// The lock-guarded state that this handle shares with its worker.
    pub closed spec fn shared(&self) -> Arc<Mutex<State<T>>> {
        self.shared
    }

    /// Whether a poll of this handle has already returned `Ready`.
    pub closed spec fn finished(&self) -> bool {
        self.finished
    }

    /// A pending handle on `shared`.
    pub(crate) fn new(shared: Arc<Mutex<State<T>>>) -> (handle: Self)
        ensures
            handle.shared() == shared,
            !handle.finished(),
    {
        RayonFuture { shared, finished: false }
    }

    /// Whether a poll of this handle has already returned `Ready`.
    pub fn is_finished(&self) -> (done: bool)
        ensures
            done == self.finished(),
    {
        self.finished
    }

    /// One poll with the wake-handle `waker`.
    ///
    /// A handle that has completed stays so and answers `Exhausted`. Any other
    /// handle looks into the slot under the lock: it completes exactly when it
    /// returns `Ready`, and never with `Exhausted`.
    pub fn poll_with(&mut self, waker: &Waker) -> (out: Poll<Result<T, Failure>>)
        ensures
            final(self).shared() == old(self).shared(),
            old(self).finished() ==> out == Poll::Ready(Err::<T, Failure>(Failure::Exhausted))
                && final(self).finished(),
            !old(self).finished() ==> final(self).finished() == (out is Ready) && out
                != Poll::Ready(Err::<T, Failure>(Failure::Exhausted)),
    {
        if self.finished {
            return Poll::Ready(Err(Failure::Exhausted));
        }
        let out = match acquire(&*self.shared) {
            Some(mut held) => {
                let state = guarded(&mut held);
                let found = try_receive(&state.receiver);
                resolve(found, &mut state.parked, waker)
            },
            None => Poll::Ready(Err(Failure::Poisoned)),
        };
        self.finished = match out {
            Poll::Ready(_) => true,
            Poll::Pending => false,
        };
        out
    }
}

impl<T> Future for RayonFuture<T> {
    type Output = Result<T, Failure>;

    /// Polls with the wake-handle of `cx`, as `poll_with` does.
    ///
    /// The handle behind the pin is opaque to the verifier, so nothing is
    /// stated here of the result: every result is the right one for some
    /// state of the handle. What a poll returns for which state is stated by
    /// `poll_with`, which this calls on the unpinned handle.
    fn poll(self: Pin<&mut Self>, cx: &mut Context<'_>) -> (out: Poll<Result<T, Failure>>) {
        let handle = unpinned(self);
        handle.poll_with(waker_of(cx))
    }
}

} // verus!
