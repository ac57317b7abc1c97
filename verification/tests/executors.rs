use async_executors::YieldNow;
use async_executors::{AsyncGlobal, AsyncStd, Bindgen, GlommioTpBuilder, ThreadSlot, TokioContext};

#[test]
fn zero_sized_executors() {
    assert!(AsyncGlobal::new() == AsyncGlobal);
    assert!(AsyncStd::new() == AsyncStd);
    assert!(Bindgen::new() == Bindgen);
    assert!(TokioContext::new() == TokioContext {});
    assert_eq!(AsyncGlobal::new().description(), "AsyncGlobal executor");
    assert_eq!(AsyncStd::new().description(), "AsyncStd executor");
    assert_eq!(Bindgen::new().description(), "WASM Bindgen executor");
}

#[test]
fn glommio_builder_plans_one_unpinned_thread_each() {
    let b = GlommioTpBuilder::new(3);
    assert_eq!(
        b.thread_plan(),
        vec![
            ThreadSlot { index: 0, cpu: None },
            ThreadSlot { index: 1, cpu: None },
            ThreadSlot { index: 2, cpu: None },
        ]
    );
    assert!(GlommioTpBuilder::new(0).thread_plan().is_empty());
}

#[test]
fn glommio_thread_names() {
    let b = GlommioTpBuilder::new(2);
    assert_eq!(b.thread_name(0), "unnamed-0");
    assert_eq!(b.thread_name(12), "unnamed-12");
}

#[test]
fn glommio_builder_error_is_handed_on() {
    let err = glommio::GlommioError::<()>::IoError(std::io::Error::from(std::io::ErrorKind::Unsupported));
    match async_executors::GlommioCt::from_made(Err(err)) {
        Err(glommio::GlommioError::IoError(e)) => assert_eq!(e.kind(), std::io::ErrorKind::Unsupported),
        _ => panic!("expected the builder's error"),
    }
}

#[test]
fn glommio_yield_outside_the_executor_is_complete_at_once() {
    if let Ok(ct) = async_executors::GlommioCt::new(glommio::LocalExecutorBuilder::default()) {
        assert!(ct.yield_now().is_done());
    }
}
