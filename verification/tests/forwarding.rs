use async_executors::{AsyncStd, Timer, TimerExt, TokioTpErr, YieldNow};
use futures_executor::{block_on, ThreadPool};
use std::{rc::Rc, sync::Arc, time::Duration};
use tracing_futures::{Instrument, WithSubscriber};

#[test]
fn yield_now_through_pointers() {
    let exec = AsyncStd::new();
    assert!(!(&exec).yield_now().is_done());
    assert!(!Box::new(exec).yield_now().is_done());
    assert!(!Rc::new(exec).yield_now().is_done());
    assert!(!Arc::new(exec).yield_now().is_done());
    assert!(!exec.in_current_span().yield_now().is_done());
    assert!(!exec.with_current_subscriber().yield_now().is_done());
}

#[test]
fn threadpool_sleep_completes() {
    let pool = ThreadPool::new().expect("threadpool");
    block_on(pool.sleep(Duration::from_millis(1)));
    block_on(Arc::new(pool.clone()).sleep(Duration::from_millis(1)));
    block_on(pool.clone().in_current_span().sleep(Duration::from_millis(1)));
    block_on(pool.with_current_subscriber().sleep(Duration::from_millis(1)));
}

#[test]
fn threadpool_timeout_future_and_timer_both_complete() {
    let pool = ThreadPool::new().expect("threadpool");
    let (fut, sleep) = pool.timeout(Duration::from_millis(1), async { 1u8 }).into_parts();
    assert_eq!(block_on(fut), 1);
    block_on(sleep);
}

#[test]
fn builder_error_kind_survives_clone() {
    let e = TokioTpErr::Builder(std::io::ErrorKind::TimedOut);
    assert!(matches!(e.clone(), TokioTpErr::Builder(std::io::ErrorKind::TimedOut)));
}
