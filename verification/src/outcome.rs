//! What a poll returns, decided from what the slot held.

use crate::slot::Reception;
use std::task::Poll;
use vstd::prelude::*;

verus! {

/// The two results of a poll, transparent to the verifier.
#[verifier::external_type_specification]
#[verifier::reject_recursive_types(T)]
pub struct ExPoll<T>(Poll<T>);

/// Why a handle completed without the closure's value.
#[derive(Clone, Copy, Debug, PartialEq, Eq, Structural)]
pub enum Failure {
    /// The worker ended without sending a value.
    Abandoned,
    /// A participant failed while it held the lock on the shared state.
    Poisoned,
    /// The handle was polled again after it had completed.
    Exhausted,
}

impl Failure {
    /// The diagnostic of each failure, in words.
    pub open spec fn text(self) -> Seq<char> {
        match self {
            Failure::Abandoned => "the worker ended without sending a value"@,
            Failure::Poisoned => "the lock on the shared state is poisoned"@,
            Failure::Exhausted => "the future was polled after it had completed"@,
        }
    }

    /// The diagnostic of this failure.
    pub fn message(self) -> (text: &'static str)
        ensures
            text@ == self.text(),
    {
        match self {
            Failure::Abandoned => "the worker ended without sending a value",
            Failure::Poisoned => "the lock on the shared state is poisoned",
            Failure::Exhausted => "the future was polled after it had completed",
        }
    }
}

/// The result of a poll whose look into the slot found `reception`.
pub open spec fn poll_result<T>(reception: Reception<T>) -> Poll<Result<T, Failure>> {
    match reception {
        Reception::Ready(value) => Poll::Ready(Ok(value)),
        Reception::Empty => Poll::Pending,
        Reception::Closed => Poll::Ready(Err(Failure::Abandoned)),
    }
}

/// The consumer's step under the lock, after the look into the slot.
///
/// A value completes the poll and a closed slot fails it; neither touches the
/// parked wake-handle. An empty slot suspends the poll and parks a clone of
/// `handle` in place of whatever was parked before.
pub fn resolve<T, W: Clone>(reception: Reception<T>, parked: &mut Option<W>, handle: &W) -> (out:
    Poll<Result<T, Failure>>)
    ensures
        out == poll_result(reception),
        reception is Empty ==> (*final(parked) matches Some(kept) && cloned(*handle, kept)),
        !(reception is Empty) ==> *final(parked) == *old(parked),
{
    match reception {
        Reception::Ready(value) => Poll::Ready(Ok(value)),
        Reception::Empty => {
            *parked = Some(handle.clone());
            Poll::Pending
        },
        Reception::Closed => Poll::Ready(Err(Failure::Abandoned)),
    }
}

} // verus!
