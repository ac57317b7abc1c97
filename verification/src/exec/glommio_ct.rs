//! The single-threaded glommio executor.

use vstd::prelude::*;
use std::rc::Rc;
use core::future::Future;
use glommio::{GlommioError, LocalExecutor, LocalExecutorBuilder};

verus! {

#[verifier::external_type_specification]
#[verifier::external_body]
pub struct ExLocalExecutor(LocalExecutor);

#[verifier::external_type_specification]
#[verifier::external_body]
pub struct ExLocalExecutorBuilder(LocalExecutorBuilder);

#[verifier::external_type_specification]
#[verifier::external_body]
#[verifier::reject_recursive_types(T)]
pub struct ExGlommioError<T>(GlommioError<T>);

/// `glommio::LocalExecutorBuilder::make`: creates the executor on the current
/// thread, or fails when the kernel refuses the io_uring rings or the CPU
/// placement. That depends on the machine, so nothing is stated of it.
#[verifier::external_body]
fn make_executor(builder: LocalExecutorBuilder) -> Result<LocalExecutor, GlommioError<()>> {
    builder.make()
}

/// `glommio::ExecutorProxy::yield_if_needed`, polled once with a waker that
/// does nothing: pending exactly when a glommio executor runs on this thread
/// and wants the current task to yield (glommio then marks the current task
/// queue to yield), ready otherwise. Unlike `need_preempt`, it checks whether
/// an executor is set on the thread instead of panicking when none is, and
/// then reports ready. It depends on the executor's queues, so nothing is
/// stated of it: the answer is handed on as a [`Preemption`].
#[verifier::external_body]
pub(crate) fn preemption_wanted() -> Preemption {
    let proxy = glommio::executor();
    let mut probe = Box::pin(proxy.yield_if_needed());
    let mut cx = std::task::Context::from_waker(std::task::Waker::noop());
    Preemption { wanted: probe.as_mut().poll(&mut cx).is_pending() }
}

/// Glommio's answer to whether the current task should yield. Its field is
/// private to this module, so outside it a value can only come from asking
/// glommio, through [`preemption_wanted`].
#[derive(Debug, Clone, Copy)]
pub struct Preemption {
    wanted: bool,
}

impl Preemption {
    /// Whether glommio wanted the current task to yield.
    pub closed spec fn wanted(self) -> bool {
        self.wanted
    }

    /// Whether glommio wanted the current task to yield.
    pub fn is_wanted(&self) -> (b: bool)
        ensures
            b == self.wanted(),
    {
        self.wanted
    }
}

/// Single threaded glommio executor. It works on Linux 5.8+ only. Calls to
/// spawn work only from within `block_on`.
///
/// Glommio does not yield unless the task has been running for some time, so
/// [`YieldNow::yield_now`] only yields when other tasks are waiting.
#[derive(Debug, Clone)]
pub struct GlommioCt {
    executor: Rc<LocalExecutor>,
}

impl GlommioCt {
    /// The glommio executor that runs the tasks.
    pub closed spec fn executor_spec(self) -> LocalExecutor {
        *self.executor
    }

    /// The executor over what the glommio builder made: the executor, or the
    /// builder's error, handed on.
    pub fn from_made(made: Result<LocalExecutor, GlommioError<()>>) -> (r: Result<Self, GlommioError<()>>)
        ensures
            made matches Ok(ex) ==> (r matches Ok(ct) && ct.executor_spec() == ex),
            made matches Err(e) ==> r == Err::<Self, GlommioError<()>>(e),
    {
        match made {
            Ok(ex) => Ok(GlommioCt { executor: Rc::new(ex) }),
            Err(e) => Err(e),
        }
    }

    /// Create an executor from a glommio builder. In order to spawn, run
    /// `block_on`.
    pub fn new(builder: LocalExecutorBuilder) -> Result<Self, GlommioError<()>> {
        Self::from_made(make_executor(builder))
    }

    /// The glommio executor, to run futures on.
    pub fn executor(&self) -> (ex: &LocalExecutor)
        ensures
            *ex == self.executor_spec(),
    {
        &self.executor
    }
}

} // verus!
