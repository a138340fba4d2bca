use rayon_future::{spawn, Failure};
use std::sync::mpsc::channel;
use std::sync::Arc;
use std::task::{Poll, Wake, Waker};
use std::time::Duration;

struct Silent;

impl Wake for Silent {
    fn wake(self: Arc<Self>) {}
}

/// Blocks the calling thread for `d`.
fn sleep(d: Duration) {
    let (_keep, wait) = channel::<()>();
    let _ = wait.recv_timeout(d);
}

#[test]
fn a_worker_that_ends_without_a_value_fails_the_handle() {
    rayon::ThreadPoolBuilder::new()
        .num_threads(2)
        .panic_handler(|_| {})
        .build_global()
        .unwrap();
    let mut fut = spawn(move || -> u32 { panic!("the closure gives up") });
    let waker = Waker::from(Arc::new(Silent));

    let mut out = fut.poll_with(&waker);
    let mut tries = 0;
    while out == Poll::Pending && tries < 10_000 {
        sleep(Duration::from_millis(1));
        out = fut.poll_with(&waker);
        tries += 1;
    }
    assert_eq!(out, Poll::Ready(Err(Failure::Abandoned)));
    assert!(fut.is_finished());
    assert_eq!(fut.poll_with(&waker), Poll::Ready(Err(Failure::Exhausted)));
}
