//! A bridge between a pool of worker threads and a poll-driven task scheduler.
//!
//! [`spawn`] hands a closure to the thread pool and returns a [`RayonFuture`]
//! at once. The handle is polled with a wake-handle; while the closure has not
//! finished, the poll parks the wake-handle in the state that both sides
//! share, and the worker invokes it after it has sent the closure's value.
//!
//! The module [`protocol`] holds a model of one such exchange and the proofs
//! that no interleaving of the two sides loses a wakeup or a value.

pub mod dispatch;
pub mod future;
pub mod outcome;
pub mod protocol;
pub mod shared;
pub mod slot;

pub use crate::dispatch::spawn;
pub use crate::future::RayonFuture;
pub use crate::outcome::{resolve, Failure};
pub use crate::shared::claim;
pub use crate::slot::Reception;
