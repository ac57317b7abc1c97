use async_executors::{DetachStep, JoinBackend, JoinFault, JoinHandle, ReleaseStep};

fn cancels(backend: JoinBackend, step: &ReleaseStep<u32>) -> bool {
    match step {
        ReleaseStep::Abort(_) => true,
        ReleaseStep::Discard(Some(_)) => {
            backend == JoinBackend::AsyncGlobal || backend == JoinBackend::RemoteHandle
        }
        ReleaseStep::Discard(None) => false,
    }
}

fn all(native: u32) -> Vec<JoinHandle<u32>> {
    vec![
        JoinHandle::tokio(native),
        JoinHandle::async_global(native),
        JoinHandle::async_std(native),
        JoinHandle::remote_handle(native),
    ]
}

#[test]
fn dropping_an_attached_handle_cancels_the_task() {
    for mut h in all(5) {
        let backend = h.kind();
        let step = h.release();
        assert!(cancels(backend, &step), "{:?}", backend);
    }
}

#[test]
fn tokio_and_async_std_abort_on_drop() {
    let mut h = JoinHandle::tokio(9u32);
    assert!(matches!(h.release(), ReleaseStep::Abort(9)));
    let mut h = JoinHandle::async_std(4u32);
    assert!(matches!(h.release(), ReleaseStep::Abort(4)));
}

#[test]
fn detached_handle_leaves_the_task_running() {
    for mut h in all(5) {
        let backend = h.kind();
        let _ = h.detach();
        let step = h.release();
        assert!(!cancels(backend, &step), "{:?}", backend);
    }
}

#[test]
fn detach_hands_on_the_native_handle() {
    let mut h = JoinHandle::async_global(1u32);
    assert!(matches!(h.detach(), DetachStep::DetachTask(1)));
    assert!(h.native_mut().is_none());
    let mut h = JoinHandle::remote_handle(2u32);
    assert!(matches!(h.detach(), DetachStep::Forget(2)));
    assert!(matches!(h.detach(), DetachStep::Remember));
    let mut h = JoinHandle::tokio(3u32);
    assert!(matches!(h.detach(), DetachStep::Remember));
    assert_eq!(h.native_mut().copied(), Some(3));
    assert!(matches!(h.release(), ReleaseStep::Discard(Some(3))));
}

#[test]
fn native_handle_can_be_polled_and_updated() {
    let mut h = JoinHandle::remote_handle(10u32);
    *h.native_mut().expect("native") += 1;
    assert!(matches!(h.release(), ReleaseStep::Discard(Some(11))));
    assert!(h.native_mut().is_none());
}

#[test]
fn outcome_of_a_failed_native_poll() {
    let h = JoinHandle::tokio(0u32);
    assert!(matches!(h.outcome::<u8, &str>(Ok(8)), Ok(8)));
    assert!(matches!(h.outcome::<u8, &str>(Err("cancelled")), Err(JoinFault::Cancelled("cancelled"))));
    let h = JoinHandle::async_std(0u32);
    assert!(matches!(h.outcome::<u8, &str>(Err("aborted")), Err(JoinFault::AbortedWhileHeld)));
}

#[test]
fn polls_then_drop_cancels_unless_detached_in_between() {
    for detach_at in [None, Some(0usize), Some(2)] {
        for mut h in all(1) {
            let backend = h.kind();
            for i in 0..4usize {
                if Some(i) == detach_at {
                    let _ = h.detach();
                }
                if let Some(n) = h.native_mut() {
                    *n += 1;
                }
            }
            let step = h.release();
            assert_eq!(cancels(backend, &step), detach_at.is_none(), "{:?} {:?}", backend, detach_at);
            assert!(matches!(h.release(), ReleaseStep::Discard(None)));
        }
    }
}

#[test]
fn join_fault_messages() {
    assert_eq!(
        JoinFault::Cancelled("e").message(),
        "Task has been canceled. Are you dropping the executor to early? Error: "
    );
    assert_eq!(
        JoinFault::<&str>::AbortedWhileHeld.message(),
        "The task was aborted while its JoinHandle holds the only abort handle."
    );
}
