use crossbeam::channel::bounded;
use rayon_future::{spawn, Failure};
use std::sync::atomic::{AtomicUsize, Ordering};
use std::sync::mpsc::channel;
use std::sync::Arc;
use std::task::{Poll, Wake, Waker};
use std::time::Duration;

/// A wake-handle that counts how often it was invoked.
struct Bell {
    rings: AtomicUsize,
}

impl Wake for Bell {
    fn wake(self: Arc<Self>) {
        self.rings.fetch_add(1, Ordering::SeqCst);
    }
}

fn bell() -> (Arc<Bell>, Waker) {
    let bell = Arc::new(Bell { rings: AtomicUsize::new(0) });
    (bell.clone(), Waker::from(bell))
}

fn rings(bell: &Arc<Bell>) -> usize {
    bell.rings.load(Ordering::SeqCst)
}

/// Blocks the calling thread for `d`.
fn sleep(d: Duration) {
    let (_keep, wait) = channel::<()>();
    let _ = wait.recv_timeout(d);
}

/// Waits until `bell` has rung, for ten seconds at most.
fn await_ring(bell: &Arc<Bell>) {
    let mut tries = 0;
    while rings(bell) == 0 && tries < 10_000 {
        sleep(Duration::from_millis(1));
        tries += 1;
    }
}

#[test]
fn an_early_poll_is_pending_and_a_later_one_is_ready() {
    let (open, gate) = bounded::<()>(1);
    let mut fut = spawn(move || {
        gate.recv().unwrap();
        41 + 1
    });
    let (bell, waker) = bell();
    assert!(!fut.is_finished());
    assert_eq!(fut.poll_with(&waker), Poll::Pending);
    assert!(!fut.is_finished());
    assert_eq!(rings(&bell), 0);

    open.send(()).unwrap();
    await_ring(&bell);
    assert_eq!(rings(&bell), 1);
    assert_eq!(fut.poll_with(&waker), Poll::Ready(Ok(42)));
    assert!(fut.is_finished());
}

#[test]
fn a_value_is_not_returned_twice() {
    let mut fut = spawn(move || 5);
    let (_bell, waker) = bell();
    let mut out = fut.poll_with(&waker);
    let mut tries = 0;
    while out == Poll::Pending && tries < 10_000 {
        sleep(Duration::from_millis(1));
        out = fut.poll_with(&waker);
        tries += 1;
    }
    assert_eq!(out, Poll::Ready(Ok(5)));
    assert_eq!(fut.poll_with(&waker), Poll::Ready(Err(Failure::Exhausted)));
    assert_eq!(fut.poll_with(&waker), Poll::Ready(Err(Failure::Exhausted)));
    assert!(fut.is_finished());
}

#[test]
fn a_late_poll_is_ready_without_a_wakeup() {
    let mut fut = spawn(move || {
        sleep(Duration::from_millis(20));
        1
    });
    sleep(Duration::from_millis(50));

    let (bell, waker) = bell();
    let held = Arc::strong_count(&bell);
    assert_eq!(fut.poll_with(&waker), Poll::Ready(Ok(1)));
    assert_eq!(Arc::strong_count(&bell), held);
    sleep(Duration::from_millis(20));
    assert_eq!(rings(&bell), 0);
}

#[test]
fn only_the_latest_handle_is_woken() {
    let (open, gate) = bounded::<()>(1);
    let mut fut = spawn(move || {
        gate.recv().unwrap();
        String::from("late")
    });
    let (first, first_waker) = bell();
    let (second, second_waker) = bell();
    assert_eq!(fut.poll_with(&first_waker), Poll::Pending);
    assert_eq!(fut.poll_with(&second_waker), Poll::Pending);

    open.send(()).unwrap();
    await_ring(&second);
    assert_eq!(rings(&second), 1);
    assert_eq!(rings(&first), 0);
    assert_eq!(fut.poll_with(&second_waker), Poll::Ready(Ok(String::from("late"))));
}

#[test]
fn two_dispatches_do_not_touch_each_other() {
    let (open, gate) = bounded::<()>(1);
    let mut slow = spawn(move || {
        gate.recv().unwrap();
        10
    });
    let mut quick = spawn(move || 20);
    let (slow_bell, slow_waker) = bell();
    let (quick_bell, quick_waker) = bell();
    assert_eq!(slow.poll_with(&slow_waker), Poll::Pending);

    let mut out = quick.poll_with(&quick_waker);
    if out == Poll::Pending {
        await_ring(&quick_bell);
        out = quick.poll_with(&quick_waker);
    }
    assert_eq!(out, Poll::Ready(Ok(20)));
    assert_eq!(rings(&slow_bell), 0);
    assert_eq!(slow.poll_with(&slow_waker), Poll::Pending);
    assert!(!slow.is_finished());

    open.send(()).unwrap();
    await_ring(&slow_bell);
    assert_eq!(slow.poll_with(&slow_waker), Poll::Ready(Ok(10)));
    assert_eq!(quick.poll_with(&quick_waker), Poll::Ready(Err(Failure::Exhausted)));
}

#[test]
fn a_dropped_handle_does_not_stop_the_worker() {
    let (open, gate) = bounded::<()>(1);
    let (report, done) = bounded::<u32>(1);
    let fut = spawn(move || {
        gate.recv().unwrap();
        report.send(3).unwrap();
        3
    });
    drop(fut);
    open.send(()).unwrap();
    assert_eq!(done.recv_timeout(Duration::from_secs(10)), Ok(3));
}

#[test]
fn a_failure_of_the_closure_is_delivered_as_a_value() {
    let fut = spawn(move || -> Result<u32, String> {
        sleep(Duration::from_millis(20));
        Err(String::from("no result"))
    });
    let res = async_std::task::block_on(fut);
    assert_eq!(res, Ok(Err(String::from("no result"))));
}
