use rayon_future::{claim, resolve, Failure, Reception};
use std::task::Poll;

#[test]
fn a_value_in_the_slot_completes_the_poll() {
    let mut parked: Option<u32> = Some(4);
    let out = resolve(Reception::Ready(7u64), &mut parked, &9);
    assert_eq!(out, Poll::Ready(Ok(7)));
    assert_eq!(parked, Some(4));
}

#[test]
fn a_value_in_the_slot_parks_nothing() {
    let mut parked: Option<u32> = None;
    let out = resolve(Reception::Ready(String::from("done")), &mut parked, &9);
    assert_eq!(out, Poll::Ready(Ok(String::from("done"))));
    assert_eq!(parked, None);
}

#[test]
fn an_empty_slot_suspends_and_parks_the_handle() {
    let mut parked: Option<u32> = None;
    let out = resolve(Reception::<u64>::Empty, &mut parked, &9);
    assert_eq!(out, Poll::Pending);
    assert_eq!(parked, Some(9));
}

#[test]
fn a_newer_handle_replaces_the_parked_one() {
    let mut parked: Option<u32> = Some(4);
    let out = resolve(Reception::<u64>::Empty, &mut parked, &9);
    assert_eq!(out, Poll::Pending);
    assert_eq!(parked, Some(9));
}

#[test]
fn a_closed_slot_fails_the_poll() {
    let mut parked: Option<u32> = Some(4);
    let out = resolve(Reception::<u64>::Closed, &mut parked, &9);
    assert_eq!(out, Poll::Ready(Err(Failure::Abandoned)));
    assert_eq!(parked, Some(4));
}

#[test]
fn claiming_takes_the_parked_handle() {
    let mut parked: Option<u32> = Some(4);
    assert_eq!(claim(&mut parked), Some(4));
    assert_eq!(parked, None);
    assert_eq!(claim(&mut parked), None);
    assert_eq!(parked, None);
}

#[test]
fn each_failure_has_its_diagnostic() {
    assert_eq!(Failure::Abandoned.message(), "the worker ended without sending a value");
    assert_eq!(Failure::Poisoned.message(), "the lock on the shared state is poisoned");
    assert_eq!(Failure::Exhausted.message(), "the future was polled after it had completed");
}
