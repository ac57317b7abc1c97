use async_executors::{AsyncGlobal, AsyncStd, TokioTp, YieldNow, YieldPoll, yield_for_preemption};

#[test]
fn fresh_yield_future_pends_once_then_completes() {
    let mut fut = AsyncStd::new().yield_now();
    assert!(!fut.is_done());
    assert_eq!(fut.poll_step(), YieldPoll::WakeAndPend);
    assert!(fut.is_done());
    assert_eq!(fut.poll_step(), YieldPoll::Ready);
    assert_eq!(fut.poll_step(), YieldPoll::Ready);
}

#[test]
fn yield_future_from_every_executor_starts_fresh() {
    assert!(!AsyncGlobal::new().yield_now().is_done());
    let tp = TokioTp::new().expect("build runtime");
    assert!(!tp.yield_now().is_done());
}

#[test]
fn glommio_yields_only_when_preemption_is_needed() {
    let mut pending = yield_for_preemption(true);
    assert_eq!(pending.poll_step(), YieldPoll::WakeAndPend);
    let mut ready = yield_for_preemption(false);
    assert!(ready.is_done());
    assert_eq!(ready.poll_step(), YieldPoll::Ready);
}

#[test]
fn yielded_future_stays_ready() {
    let mut fut = AsyncGlobal::new().yield_now();
    let _ = fut.poll_step();
    for _ in 0..5 {
        assert_eq!(fut.poll_step(), YieldPoll::Ready);
        assert!(fut.is_done());
    }
}

#[test]
fn yield_future_pends_at_most_once_over_many_polls() {
    let mut fut = AsyncStd::new().yield_now();
    let pends = (0..10).filter(|_| fut.poll_step() == YieldPoll::WakeAndPend).count();
    assert_eq!(pends, 1);
}
