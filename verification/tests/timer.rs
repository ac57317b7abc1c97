use async_executors::{Readiness, Timeout, TimeoutError, TimerExt, timeout_poll};
use futures_executor::ThreadPool;
use std::time::Duration;

#[test]
fn ready_future_wins_without_polling_the_timer() {
    let mut polled = false;
    let r = timeout_poll(Readiness::Ready(7u8), || {
        polled = true;
        Readiness::Ready(())
    });
    assert_eq!(r, Readiness::Ready(Ok(7u8)));
    assert!(!polled);
}

#[test]
fn pending_future_and_fired_timer_times_out() {
    let r = timeout_poll(Readiness::<u8>::Pending, || Readiness::Ready(()));
    assert_eq!(r, Readiness::Ready(Err(TimeoutError)));
}

#[test]
fn pending_future_and_pending_timer_stays_pending() {
    let mut polled = false;
    let r = timeout_poll(Readiness::<u8>::Pending, || {
        polled = true;
        Readiness::Pending
    });
    assert_eq!(r, Readiness::Pending);
    assert!(polled);
}

#[test]
fn timeout_error_message() {
    assert_eq!(TimeoutError.message(), "Timeout expired");
}

#[test]
fn timeout_keeps_the_future() {
    let pool = ThreadPool::new().expect("threadpool");
    let t = pool.timeout(Duration::from_millis(5), async { 3u8 });
    let (fut, _sleep) = t.into_parts();
    assert_eq!(futures_executor::block_on(fut), 3u8);
}

#[test]
fn timeout_new_pairs_its_parts() {
    let t = Timeout::new(1u8, 2u16);
    assert_eq!(t.into_parts(), (1u8, 2u16));
}
