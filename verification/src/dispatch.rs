//! Handing work to the thread pool.

use crate::future::RayonFuture;
use crate::shared::{complete, enclose, State};
use crate::slot::open_slot;
use std::sync::Arc;
use vstd::prelude::*;

verus! {

/// Calls `rayon::spawn`.
///
/// Trusted: the call has no result. The pool runs `job` at some later time on
/// one of its threads.
#[verifier::external_body]
fn submit<F>(job: F) where F: FnOnce() + Send + 'static
    requires
        job.requires(()),
{
    rayon::spawn(job)
}

/// Hands `f` to the thread pool and returns a pending handle to its result,
/// without waiting for the pool.
///
/// The worker runs `f`, sends its value into the slot, and then invokes the
/// wake-handle that a poll may have parked meanwhile. Each call has a slot and
/// a shared state of its own. Dropping the handle does not stop the worker.
///
/// A closure that panics ends the worker without a send, and what becomes of
/// the panic is up to the pool. A later poll then fails with `Abandoned`, but
/// a consumer that was already suspended is not woken. Callers whose closure
/// may panic let it catch the panic and return it as a value.
pub fn spawn<T, F>(f: F) -> (future: RayonFuture<T>) where
    F: FnOnce() -> T + Send + 'static,
    T: Send + 'static,

    requires
        f.requires(()),
    ensures
        !future.finished(),
{
    let (sender, receiver) = open_slot::<T>();
    let shared = Arc::new(enclose(State::new(receiver)));
    let theirs = shared.clone();
    let job = move || {
        let value = f();
        complete(&theirs, sender, value);
    };
    submit(job);
    RayonFuture::new(shared)
}

} // verus!
