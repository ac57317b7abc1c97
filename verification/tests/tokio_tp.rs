use async_executors::{Flavor, TokioTp, TokioTpBuilder, TokioTpErr, TpSpawner};
use std::time::Duration;
use tokio::runtime::Builder;

fn multi() -> tokio::runtime::Runtime {
    Builder::new_multi_thread().worker_threads(1).build().expect("runtime")
}

fn current() -> tokio::runtime::Runtime {
    Builder::new_current_thread().build().expect("runtime")
}

#[test]
fn new_owns_a_runtime() {
    let tp = TokioTp::new().expect("build");
    assert!(matches!(tp.spawner(), TpSpawner::Runtime(_)));
    assert!(tp.shutdown_background().is_ok());
}

#[test]
fn from_multithreaded_runtime() {
    let tp = TokioTp::try_from_runtime(multi()).expect("multithreaded");
    assert!(matches!(tp.spawner(), TpSpawner::Runtime(_)));
}

#[test]
fn from_current_thread_runtime_hands_it_back() {
    let back = TokioTp::try_from_runtime(current()).expect_err("current thread");
    drop(back);
}

#[test]
fn from_runtime_of_flavor_decides_by_flavor() {
    assert!(TokioTp::from_runtime_of_flavor(multi(), Flavor::MultiThread).is_ok());
    assert!(TokioTp::from_runtime_of_flavor(current(), Flavor::CurrentThread).is_err());
}

#[test]
fn from_handle() {
    let rt = multi();
    let tp = TokioTp::try_from_handle(rt.handle().clone()).expect("multithreaded");
    assert!(matches!(tp.spawner(), TpSpawner::Handle(_)));
    let ct = current();
    assert!(TokioTp::try_from_handle(ct.handle().clone()).is_err());
}

#[test]
fn try_current_without_runtime() {
    assert!(matches!(TokioTp::try_current(), Err(TokioTpErr::NoRuntime)));
}

#[test]
fn try_current_inside_runtimes() {
    let rt = multi();
    let got = rt.block_on(async { TokioTp::try_current() });
    assert!(matches!(got.expect("entered").spawner(), TpSpawner::Handle(_)));
    let ct = current();
    let got = ct.block_on(async { TokioTp::try_current() });
    assert!(matches!(got, Err(TokioTpErr::WrongFlavour)));
}

#[test]
fn from_current_decides() {
    assert!(matches!(TokioTp::from_current(None), Err(TokioTpErr::NoRuntime)));
    let rt = multi();
    let h = rt.handle().clone();
    assert!(TokioTp::from_current(Some((h.clone(), Flavor::MultiThread))).is_ok());
    let ct = current();
    let c = ct.handle().clone();
    assert!(matches!(TokioTp::from_current(Some((c, Flavor::CurrentThread))), Err(TokioTpErr::WrongFlavour)));
}

#[test]
fn from_build_keeps_the_error_kind() {
    let err = TokioTp::from_build(Err(std::io::ErrorKind::OutOfMemory)).expect_err("error");
    assert!(matches!(err, TokioTpErr::Builder(std::io::ErrorKind::OutOfMemory)));
    assert!(TokioTp::from_build(Ok(multi())).is_ok());
}

#[test]
fn only_the_last_owner_shuts_down() {
    let tp = TokioTp::new().expect("build");
    let clone = tp.clone();
    let back = match tp.shutdown_timeout(Duration::from_millis(10)) {
        Err(TokioTpErr::Cloned(back)) => back,
        other => panic!("expected Cloned, got {:?}", other.map(|_| ())),
    };
    drop(back);
    assert!(clone.shutdown_timeout(Duration::from_millis(10)).is_ok());
}

#[test]
fn executor_from_handle_cannot_shut_down() {
    let rt = multi();
    let tp = TokioTp::try_from_handle(rt.handle().clone()).expect("multithreaded");
    assert!(matches!(tp.clone().shutdown_background(), Err(TokioTpErr::Handle(_))));
    assert!(matches!(tp.shutdown_timeout(Duration::from_millis(1)), Err(TokioTpErr::Handle(_))));
}

#[test]
fn handle_spawns_on_the_runtime() {
    let tp = TokioTp::new().expect("build");
    let h = tp.handle();
    let out = h.spawner().block_on(async { 5u8 });
    assert_eq!(out, 5);
}

#[test]
fn builder_builds_a_threadpool() {
    let mut b = TokioTpBuilder::new();
    b.tokio_builder().worker_threads(2);
    let tp = b.build().expect("build");
    assert!(matches!(tp.spawner(), TpSpawner::Runtime(_)));
}

#[test]
fn error_messages() {
    let tp = TokioTp::new().expect("build");
    assert_eq!(
        TokioTpErr::Cloned(tp.clone()).message(),
        "The TokioTp executor was cloned. Only the last copy can shut it down."
    );
    assert_eq!(
        TokioTpErr::Handle(tp).message(),
        "The TokioTp was created from tokio::runtime::Handle. Only an owned executor (created from `Runtime`) can be shut down."
    );
    assert_eq!(
        TokioTpErr::NoRuntime.message(),
        "Call to tokio::Handle::try_current failed, generally because no entered runtime is active."
    );
    assert_eq!(TokioTpErr::WrongFlavour.message(), "Can't create TokioTp from a current thread `Runtime`.");
    assert_eq!(
        TokioTpErr::Builder(std::io::ErrorKind::OutOfMemory).message(),
        format!("tokio::runtime::Builder returned an error: {}", std::io::ErrorKind::OutOfMemory)
    );
}

#[test]
fn builder_from_built_hands_the_error_on() {
    let err = TokioTpBuilder::from_built(Err(std::io::Error::new(std::io::ErrorKind::Other, "no threads")))
        .expect_err("error");
    assert_eq!(err.kind(), std::io::ErrorKind::Other);
    assert_eq!(err.to_string(), "no threads");
    let tp = TokioTpBuilder::from_built(Ok(multi())).expect("executor");
    assert!(matches!(tp.spawner(), TpSpawner::Runtime(_)));
}

#[test]
fn handle_of_owning_executor_is_the_runtime_handle() {
    let tp = TokioTp::try_from_runtime(multi()).expect("multithreaded");
    let h = tp.handle();
    let id = match tp.spawner() {
        TpSpawner::Runtime(rt) => rt.handle().id(),
        TpSpawner::Handle(_) => panic!("owned runtime"),
    };
    assert_eq!(h.spawner().id(), id);
}

#[test]
fn new_and_builder_make_multithreaded_runtimes() {
    let tp = TokioTp::new().expect("build");
    match tp.spawner() {
        TpSpawner::Runtime(rt) => {
            assert_eq!(rt.handle().runtime_flavor(), tokio::runtime::RuntimeFlavor::MultiThread)
        }
        TpSpawner::Handle(_) => panic!("owned runtime"),
    }
    let built = TokioTpBuilder::new().build().expect("build");
    match built.spawner() {
        TpSpawner::Runtime(rt) => {
            assert_eq!(rt.handle().runtime_flavor(), tokio::runtime::RuntimeFlavor::MultiThread)
        }
        TpSpawner::Handle(_) => panic!("owned runtime"),
    }
}

#[test]
fn try_from_handle_decides_by_the_handles_flavour() {
    let m = multi();
    assert!(TokioTp::try_from_handle(m.handle().clone()).is_ok());
    let c = current();
    let back = TokioTp::try_from_handle(c.handle().clone()).expect_err("current-thread");
    assert_eq!(back.id(), c.handle().id());
}

#[test]
fn into_sole_runtime_of_last_owner_and_of_clones() {
    let tp = TokioTp::new().expect("build");
    let other = tp.clone();
    let back = match tp.into_sole_runtime() {
        Err(TokioTpErr::Cloned(back)) => back,
        _ => panic!("a clone is alive"),
    };
    drop(other);
    let rt = back.into_sole_runtime().expect("last owner");
    assert_eq!(rt.handle().runtime_flavor(), tokio::runtime::RuntimeFlavor::MultiThread);
}

#[test]
fn from_unwrapped_maps_both_outcomes() {
    let rt = TokioTp::from_unwrapped(Ok(multi())).expect("runtime");
    assert_eq!(rt.handle().runtime_flavor(), tokio::runtime::RuntimeFlavor::MultiThread);
    let shared = std::sync::Arc::new(multi());
    let id = shared.handle().id();
    match TokioTp::from_unwrapped(Err(shared)) {
        Err(TokioTpErr::Cloned(tp)) => match tp.spawner() {
            TpSpawner::Runtime(rt) => assert_eq!(rt.handle().id(), id),
            TpSpawner::Handle(_) => panic!("owned runtime"),
        },
        _ => panic!("cloned"),
    }
}

#[test]
fn shutdown_timeout_inside_a_runtime_does_not_panic() {
    let outer = current();
    let inner = TokioTp::new().expect("build");
    let r = outer.block_on(async move { inner.shutdown_timeout(Duration::from_secs(1)) });
    assert!(r.is_ok());
}

#[test]
fn shutdown_timeout_of_sole_owner_is_ok() {
    let tp = TokioTp::new().expect("build");
    assert!(tp.shutdown_timeout(Duration::from_secs(1)).is_ok());
}

#[test]
fn shutdown_timeout_made_waits_outside_a_runtime() {
    let tp = TokioTp::new().expect("build");
    let done = tp.shutdown_timeout_made(Duration::from_millis(300)).expect("sole owner");
    assert!(matches!(done.made(), async_executors::ShutdownPlan::Wait(d) if d == Duration::from_millis(300)));
}

#[test]
fn shutdown_timeout_made_inside_a_runtime_does_not_wait() {
    let outer = current();
    let tp = TokioTp::new().expect("build");
    let done = outer.block_on(async move { tp.shutdown_timeout_made(Duration::from_secs(1)) }).expect("sole owner");
    assert!(matches!(done.made(), async_executors::ShutdownPlan::Background));
}

#[test]
fn shutdown_background_made_does_not_wait() {
    let tp = TokioTp::new().expect("build");
    let done = tp.shutdown_background_made().expect("sole owner");
    assert!(matches!(done.made(), async_executors::ShutdownPlan::Background));
}

#[test]
fn shutdown_made_hands_back_clones_and_handles() {
    let tp = TokioTp::new().expect("build");
    let other = tp.clone();
    let back = match tp.shutdown_timeout_made(Duration::from_millis(10)) {
        Err(TokioTpErr::Cloned(back)) => back,
        _ => panic!("a clone is alive"),
    };
    drop(other);
    assert!(back.shutdown_timeout_made(Duration::from_millis(10)).is_ok());
    let m = multi();
    let from_handle = TokioTp::try_from_handle(m.handle().clone()).expect("multithreaded");
    assert!(matches!(from_handle.shutdown_background_made(), Err(TokioTpErr::Handle(_))));
}

#[test]
fn builder_replaced_by_current_thread_fails_to_build() {
    let mut b = TokioTpBuilder::new();
    *b.tokio_builder() = Builder::new_current_thread();
    let err = b.build().expect_err("wrong scheduler");
    assert_eq!(err.kind(), std::io::ErrorKind::Other);
}

#[test]
fn clones_share_the_runtime() {
    let tp = TokioTp::new().expect("build");
    let other = tp.clone();
    match (tp.spawner(), other.spawner()) {
        (TpSpawner::Runtime(a), TpSpawner::Runtime(b)) => assert!(std::sync::Arc::ptr_eq(a, b)),
        _ => panic!("owned runtime"),
    }
}
