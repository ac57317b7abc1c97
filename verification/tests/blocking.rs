use async_executors::{
    BlockingBackend, BlockingHandle, BlockingJoinBackend, BlockingJoinHandle, BlockingStep, DoneSignal,
    PthreadStep,
};

#[test]
fn working_thread_is_not_joined() {
    let mut h = BlockingHandle::std_thread(1u8);
    assert_eq!(h.kind(), BlockingBackend::StdThread);
    assert!(matches!(h.poll_step(true), BlockingStep::WakeAndPend));
    assert!(matches!(h.poll_step(true), BlockingStep::WakeAndPend));
    assert_eq!(h.native_mut().copied(), Some(1));
}

#[test]
fn finished_thread_is_joined_once() {
    let mut h = BlockingHandle::std_thread(1u8);
    assert!(matches!(h.poll_step(false), BlockingStep::Join(1)));
    assert!(matches!(h.poll_step(false), BlockingStep::AlreadyJoined));
}

#[test]
fn executor_backends_are_polled_natively() {
    for mut h in [BlockingHandle::tokio(1u8), BlockingHandle::async_global(2u8), BlockingHandle::async_std(3u8)] {
        assert!(matches!(h.poll_step(false), BlockingStep::PollNative));
        assert!(h.native_mut().is_some());
    }
}

#[test]
fn pthread_waits_for_its_signal() {
    let mut h = BlockingJoinHandle::pthread(7u8);
    assert!(matches!(h.poll_step(DoneSignal::NotYet), PthreadStep::Pend));
    assert!(matches!(h.poll_step(DoneSignal::Finished), PthreadStep::Join(7)));
    assert!(matches!(h.poll_step(DoneSignal::Finished), PthreadStep::AlreadyJoined));
}

#[test]
fn pthread_with_dropped_sender_is_joined() {
    let mut h = BlockingJoinHandle::pthread(7u8);
    assert!(matches!(h.poll_step(DoneSignal::SenderDropped), PthreadStep::Join(7)));
    assert!(matches!(h.poll_step(DoneSignal::SenderDropped), PthreadStep::AlreadyJoined));
}

#[test]
fn tokio_blocking_join_handle_polls_natively() {
    let mut h = BlockingJoinHandle::tokio(7u8);
    assert!(matches!(h.poll_step(DoneSignal::Finished), PthreadStep::PollNative));
    assert_eq!(h.native_mut().copied(), Some(7));
    let _ = BlockingJoinBackend::Tokio;
}

#[test]
fn thread_joined_exactly_once_over_many_polls() {
    let mut h = BlockingHandle::std_thread(3u8);
    let alive = [true, true, false, false, true, false];
    let joins = alive.iter().filter(|a| matches!(h.poll_step(**a), BlockingStep::Join(_))).count();
    assert_eq!(joins, 1);
}

#[test]
fn pthread_joined_exactly_once_over_many_polls() {
    let mut h = BlockingJoinHandle::pthread(3u8);
    let signals = [DoneSignal::NotYet, DoneSignal::Finished, DoneSignal::SenderDropped, DoneSignal::NotYet];
    let joins = signals.iter().filter(|s| matches!(h.poll_step(**s), PthreadStep::Join(_))).count();
    assert_eq!(joins, 1);
}

#[test]
fn tokio_outcome_keeps_output_and_reports_failure() {
    let h = BlockingHandle::tokio(0u8);
    assert_eq!(h.tokio_outcome::<u8, &str>(Ok(4)), Ok(4));
    let (message, e) = h.tokio_outcome::<u8, &str>(Err("cancelled")).expect_err("failure");
    assert_eq!(e, "cancelled");
    assert_eq!(message, "Task has been canceled or has panicked. Are you dropping the executor to early? Error: ");
    let j = BlockingJoinHandle::tokio(0u8);
    assert_eq!(j.tokio_outcome::<u8, &str>(Ok(9)), Ok(9));
    let (message, e) = j.tokio_outcome::<u8, &str>(Err("gone")).expect_err("failure");
    assert_eq!(e, "gone");
    assert_eq!(message, "Task has been canceled. Are you dropping the executor to early? Error: ");
}
