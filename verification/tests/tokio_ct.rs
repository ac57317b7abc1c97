use async_executors::{CtSpawner, Flavor, TokioCt, TokioCtBuilder, TokioCtErr};
use tokio::runtime::Builder;

fn multi() -> tokio::runtime::Runtime {
    Builder::new_multi_thread().worker_threads(1).build().expect("runtime")
}

fn current() -> tokio::runtime::Runtime {
    Builder::new_current_thread().build().expect("runtime")
}

#[test]
fn ct_new_owns_a_runtime() {
    let ct = TokioCt::new().expect("build");
    assert!(matches!(ct.spawner(), CtSpawner::Runtime(_)));
    let out = match ct.spawner() {
        CtSpawner::Runtime(rt) => rt.block_on(ct.local().run_until(async { 2u8 })),
        CtSpawner::Handle(_) => unreachable!(),
    };
    assert_eq!(out, 2);
}

#[test]
fn ct_from_runtimes() {
    assert!(TokioCt::try_from_runtime(current()).is_ok());
    assert!(TokioCt::try_from_runtime(multi()).is_err());
    assert!(TokioCt::from_runtime_of_flavor(current(), Flavor::CurrentThread).is_ok());
    assert!(TokioCt::from_runtime_of_flavor(multi(), Flavor::MultiThread).is_err());
    assert!(TokioCt::from_owned_runtime(current()).spawner().clone_is_runtime());
}

trait IsRuntime {
    fn clone_is_runtime(&self) -> bool;
}

impl IsRuntime for CtSpawner {
    fn clone_is_runtime(&self) -> bool {
        matches!(self.clone(), CtSpawner::Runtime(_))
    }
}

#[test]
fn ct_from_handles() {
    let rt = current();
    assert!(matches!(TokioCt::try_from_handle(rt.handle().clone()).expect("ct").spawner(), CtSpawner::Handle(_)));
    let mt = multi();
    assert!(TokioCt::try_from_handle(mt.handle().clone()).is_err());
}

#[test]
fn ct_try_current() {
    assert!(matches!(TokioCt::try_current(), Err(TokioCtErr::NoRuntime)));
    let rt = current();
    assert!(rt.block_on(async { TokioCt::try_current() }).is_ok());
    let mt = multi();
    assert!(matches!(mt.block_on(async { TokioCt::try_current() }), Err(TokioCtErr::WrongFlavour)));
}

#[test]
fn ct_from_current_and_build() {
    assert!(matches!(TokioCt::from_current(None), Err(TokioCtErr::NoRuntime)));
    let rt = current();
    assert!(TokioCt::from_current(Some((rt.handle().clone(), Flavor::CurrentThread))).is_ok());
    let mt = multi();
    assert!(matches!(
        TokioCt::from_current(Some((mt.handle().clone(), Flavor::MultiThread))),
        Err(TokioCtErr::WrongFlavour)
    ));
    assert!(matches!(
        TokioCt::from_build(Err(std::io::ErrorKind::Other)),
        Err(TokioCtErr::Builder(std::io::ErrorKind::Other))
    ));
}

#[test]
fn ct_builder_builds() {
    let mut b = TokioCtBuilder::default();
    b.tokio_builder().enable_time();
    let ct = b.build().expect("build");
    assert!(matches!(ct.spawner(), CtSpawner::Runtime(_)));
}

#[test]
fn ct_error_messages() {
    assert_eq!(TokioCtErr::WrongFlavour.message(), "Can't create TokioCt from a multithreaded `Runtime`.");
    let ct = TokioCt::new().expect("build");
    assert_eq!(
        TokioCtErr::Cloned(ct.clone()).message(),
        "The TokioCt executor was cloned. Only the last copy can shut it down."
    );
    assert_eq!(
        TokioCtErr::Handle(ct).message(),
        "The TokioCt was created from tokio::runtime::Handle. Only an owned executor (created from `Runtime`) can be shut down."
    );
}

#[test]
fn ct_builder_from_built_hands_the_error_on() {
    let err = TokioCtBuilder::from_built(Err(std::io::Error::new(std::io::ErrorKind::Other, "no reactor")))
        .expect_err("error");
    assert_eq!(err.kind(), std::io::ErrorKind::Other);
    assert_eq!(err.to_string(), "no reactor");
    let ct = TokioCtBuilder::from_built(Ok(current())).expect("executor");
    assert!(matches!(ct.spawner(), CtSpawner::Runtime(_)));
}

#[test]
fn ct_new_and_builder_make_current_thread_runtimes() {
    let ct = TokioCt::new().expect("build");
    match ct.spawner() {
        CtSpawner::Runtime(rt) => {
            assert_eq!(rt.handle().runtime_flavor(), tokio::runtime::RuntimeFlavor::CurrentThread)
        }
        CtSpawner::Handle(_) => panic!("owned runtime"),
    }
    let built = TokioCtBuilder::new().build().expect("build");
    match built.spawner() {
        CtSpawner::Runtime(rt) => {
            assert_eq!(rt.handle().runtime_flavor(), tokio::runtime::RuntimeFlavor::CurrentThread)
        }
        CtSpawner::Handle(_) => panic!("owned runtime"),
    }
}

#[test]
fn ct_builder_replaced_by_multi_thread_fails_to_build() {
    let mut b = TokioCtBuilder::new();
    *b.tokio_builder() = Builder::new_multi_thread();
    let err = b.build().expect_err("wrong scheduler");
    assert_eq!(err.kind(), std::io::ErrorKind::Other);
}
