//! The parts of tokio's runtime API that the tokio executors call, and the
//! outside types that they hold.

use vstd::prelude::*;
use std::sync::Arc;
use core::time::Duration;
use tokio::runtime::{Builder as RtBuilder, Handle as RtHandle, Runtime as TokioRuntime, RuntimeFlavor};
use tokio::task::LocalSet;

verus! {

#[verifier::external_type_specification]
#[verifier::external_body]
pub struct ExRuntime(TokioRuntime);

#[verifier::external_type_specification]
#[verifier::external_body]
pub struct ExHandle(RtHandle);

#[verifier::external_type_specification]
#[verifier::external_body]
pub struct ExBuilder(RtBuilder);

#[verifier::external_type_specification]
#[verifier::external_body]
pub struct ExLocalSet(LocalSet);

#[verifier::external_type_specification]
#[verifier::external_body]
pub struct ExIoError(std::io::Error);

#[verifier::external_type_specification]
#[verifier::external_body]
pub struct ExIoErrorKind(std::io::ErrorKind);

/// `Clone` of `std::io::ErrorKind`, a `Copy` enum: the same kind.
pub assume_specification[ <std::io::ErrorKind as Clone>::clone ](kind: &std::io::ErrorKind) -> (r: std::io::ErrorKind)
    ensures
        r == *kind,
;

/// `Clone` of `tokio::runtime::Handle`: another handle to the same runtime.
/// The handle's derived `Clone` clones the `Arc` of the runtime's scheduler,
/// so the clone is the same handle value.
pub assume_specification[ <RtHandle as Clone>::clone ](h: &RtHandle) -> (r: RtHandle)
    ensures
        r == *h,
;

/// The scheduler of a tokio runtime, as `RuntimeFlavor` reports it.
#[derive(Debug, Clone, Copy, PartialEq, Eq, Structural)]
pub enum Flavor {
    /// All tasks run on the current thread.
    CurrentThread,
    /// Tasks run on a pool of worker threads.
    MultiThread,
    /// A flavor that a later tokio may add.
    Other,
}

/// Whether the current-thread executor runs on a runtime of this flavor.
pub open spec fn current_thread_accepts(flavor: Flavor) -> bool {
    flavor == Flavor::CurrentThread
}

/// Whether the threadpool executor runs on a runtime of this flavor.
pub open spec fn threadpool_accepts(flavor: Flavor) -> bool {
    flavor == Flavor::MultiThread
}

/// No scheduler is accepted by both the current-thread and the threadpool
/// executor, so no runtime can carry both kinds of executor. (That each
/// executor runs on the scheduler its type names is the type invariant of
/// `TokioCt` and of `TokioTp`.)
pub proof fn law_flavors_are_exclusive(flavor: Flavor)
    ensures
        !(current_thread_accepts(flavor) && threadpool_accepts(flavor)),
{
}

/// The scheduler that a tokio builder was made with (its private `kind`
/// field, which no configuration method changes): the flavour that the
/// runtimes it builds report.
pub uninterp spec fn builder_flavor(builder: RtBuilder) -> Flavor;

/// `tokio::runtime::Handle::runtime_flavor`, converted variant by variant: the
/// scheduler of the runtime that the handle refers to, read from the handle's
/// own `inner` field.
pub uninterp spec fn flavor_of_handle(handle: RtHandle) -> Flavor;

/// `tokio::runtime::Builder::new_current_thread`: a builder whose `kind` is
/// `Kind::CurrentThread`, so that it builds current-thread runtimes.
#[verifier::external_body]
pub(crate) fn new_current_thread_builder() -> (b: RtBuilder)
    ensures
        builder_flavor(b) == Flavor::CurrentThread,
{
    RtBuilder::new_current_thread()
}

/// `tokio::runtime::Builder::new_multi_thread`: a builder whose `kind` is
/// `Kind::MultiThread`, so that it builds runtimes with a pool of worker
/// threads.
#[verifier::external_body]
pub(crate) fn new_multi_thread_builder() -> (b: RtBuilder)
    ensures
        builder_flavor(b) == Flavor::MultiThread,
{
    RtBuilder::new_multi_thread()
}

/// `tokio::runtime::Builder::build`: creates the runtime, or fails when the
/// OS resources it needs cannot be set up. Which of the two happens depends on
/// the machine, so that is not stated. What is stated: the builder's `kind`
/// is left as it was, and a runtime built is of the builder's scheduler
/// (`build` matches on `kind` and builds a current-thread or a multi-thread
/// scheduler accordingly, which `runtime_flavor` reports).
#[verifier::external_body]
pub(crate) fn build_runtime(builder: &mut RtBuilder) -> (r: std::io::Result<TokioRuntime>)
    ensures
        builder_flavor(*final(builder)) == builder_flavor(*old(builder)),
        r matches Ok(rt) ==> flavor_of_handle(handle_of_runtime(rt)) == builder_flavor(*old(builder)),
{
    builder.build()
}

/// `std::io::Error::kind`: the category of an I/O error. Nothing is stated of
/// it.
#[verifier::external_body]
pub(crate) fn io_error_kind(e: &std::io::Error) -> std::io::ErrorKind {
    e.kind()
}

/// The handle that a tokio runtime holds: the field that
/// `tokio::runtime::Runtime::handle` gives a reference to.
pub uninterp spec fn handle_of_runtime(rt: TokioRuntime) -> RtHandle;

/// `tokio::runtime::Runtime::handle`: a reference to the handle that the
/// runtime holds in a field of its own, named [`handle_of_runtime`].
#[verifier::external_body]
pub(crate) fn runtime_handle(rt: &TokioRuntime) -> (h: &RtHandle)
    ensures
        *h == handle_of_runtime(*rt),
{
    rt.handle()
}

/// `tokio::runtime::Handle::runtime_flavor`: the scheduler of the runtime
/// that the handle refers to, converted variant by variant; named
/// [`flavor_of_handle`].
#[verifier::external_body]
pub(crate) fn handle_flavor(handle: &RtHandle) -> (f: Flavor)
    ensures
        f == flavor_of_handle(*handle),
{
    match handle.runtime_flavor() {
        RuntimeFlavor::CurrentThread => Flavor::CurrentThread,
        RuntimeFlavor::MultiThread => Flavor::MultiThread,
        _ => Flavor::Other,
    }
}

/// `tokio::runtime::Handle::try_current`: a handle to the runtime entered on
/// this thread, `None` when no runtime is entered. It depends on the calling
/// context, so nothing is stated of it.
#[verifier::external_body]
pub(crate) fn current_handle() -> Option<RtHandle> {
    RtHandle::try_current().ok()
}

/// `tokio::task::LocalSet::new`: an empty set of `!Send` tasks.
#[verifier::external_body]
pub(crate) fn new_local_set() -> LocalSet {
    LocalSet::new()
}

/// Evidence, found by `tokio::runtime::Handle::try_current` on the calling
/// thread, that no tokio runtime context is set there. A runtime is entered
/// on a thread (by `block_on` or on its worker threads) only together with
/// its context, so tokio allows blocking there. Only [`outside_runtime`]
/// makes one, and the crate uses it at once on the thread that made it.
pub struct OutsideRuntime {
    found: (),
}

/// `tokio::runtime::Handle::try_current`, asked whether a runtime context is
/// set on this thread: the evidence when none is, `None` when one is. It
/// depends on the calling thread, so nothing is stated of it.
#[verifier::external_body]
pub(crate) fn outside_runtime() -> Option<OutsideRuntime> {
    match RtHandle::try_current() {
        Ok(_) => None,
        Err(_) => Some(OutsideRuntime { found: () }),
    }
}

/// Which tokio shutdown was made on a runtime.
#[derive(Debug, Clone, Copy)]
pub enum ShutdownPlan {
    /// `Runtime::shutdown_timeout` with this duration: the runtime is shut
    /// down, waiting at most that long for its blocking tasks.
    Wait(Duration),
    /// `Runtime::shutdown_background`: the runtime is shut down without
    /// waiting for its blocking tasks.
    Background,
}

/// The shutdown to make of a runtime that should be shut down waiting at most
/// `duration`: that one where blocking is allowed (`outside` a runtime), and
/// one without waiting otherwise, since tokio refuses to block inside a
/// runtime.
pub open spec fn shutdown_plan(duration: Duration, outside: bool) -> ShutdownPlan {
    if outside {
        ShutdownPlan::Wait(duration)
    } else {
        ShutdownPlan::Background
    }
}

/// Receipt of a tokio shutdown that was made. Only the two shutdown calls
/// below give one, so holding one shows which shutdown was made.
#[derive(Debug)]
pub struct ShutdownDone {
    plan: ShutdownPlan,
}

impl ShutdownDone {
    /// The shutdown that was made.
    pub closed spec fn plan(self) -> ShutdownPlan {
        self.plan
    }

    /// The shutdown that was made.
    pub fn made(&self) -> (p: ShutdownPlan)
        ensures
            p == self.plan(),
    {
        self.plan
    }
}

/// `tokio::runtime::Runtime::shutdown_timeout`: shuts the runtime down,
/// waiting at most `duration` for blocking tasks, and gives the receipt of
/// that shutdown. Tokio panics when it would have to wait where blocking is
/// not allowed, inside a runtime; the `outside` evidence, which only
/// [`outside_runtime`] gives, shows that the calling thread is not.
#[verifier::external_body]
pub(crate) fn shutdown_runtime_timeout(rt: TokioRuntime, duration: Duration, outside: OutsideRuntime) -> (done:
    ShutdownDone)
    ensures
        done.plan() == ShutdownPlan::Wait(duration),
{
    rt.shutdown_timeout(duration);
    ShutdownDone { plan: ShutdownPlan::Wait(duration) }
}

/// `tokio::runtime::Runtime::shutdown_background`: shuts the runtime down
/// without waiting for blocking tasks, and gives the receipt of that
/// shutdown.
#[verifier::external_body]
pub(crate) fn shutdown_runtime_background(rt: TokioRuntime) -> (done: ShutdownDone)
    ensures
        done.plan() == ShutdownPlan::Background,
{
    rt.shutdown_background();
    ShutdownDone { plan: ShutdownPlan::Background }
}

/// Shuts `rt` down, waiting at most `duration` for its blocking tasks when the
/// evidence shows that no runtime is entered on this thread, and without
/// waiting otherwise.
pub fn shut_down(rt: TokioRuntime, duration: Duration, outside: Option<OutsideRuntime>) -> (done:
    ShutdownDone)
    ensures
        done.plan() == shutdown_plan(duration, outside is Some),
{
    match outside {
        Some(evidence) => shutdown_runtime_timeout(rt, duration, evidence),
        None => shutdown_runtime_background(rt),
    }
}

/// `std::io::Error::new` with `std::io::ErrorKind::Other`: an I/O error that
/// carries `message`. Nothing is stated of it.
#[verifier::external_body]
pub(crate) fn other_io_error(message: &'static str) -> std::io::Error {
    std::io::Error::new(std::io::ErrorKind::Other, message)
}

/// `Clone` of `std::sync::Arc`: another pointer to the same value, whose
/// strong count it raises.
#[verifier::external_body]
pub(crate) fn arc_clone<T>(arc: &Arc<T>) -> (r: Arc<T>)
    ensures
        r == *arc,
{
    Arc::clone(arc)
}

/// `Clone` of `std::rc::Rc`: another pointer to the same value, whose strong
/// count it raises.
#[verifier::external_body]
pub(crate) fn rc_clone<T>(rc: &std::rc::Rc<T>) -> (r: std::rc::Rc<T>)
    ensures
        r == *rc,
{
    std::rc::Rc::clone(rc)
}

/// `std::sync::Arc::try_unwrap`: the value when this was the only strong
/// reference to it, and the `Arc` itself otherwise. Which of the two depends
/// on the other clones alive, so only that the value is kept either way is
/// stated.
#[verifier::external_body]
pub(crate) fn arc_try_unwrap<T>(arc: Arc<T>) -> (r: Result<T, Arc<T>>)
    ensures
        match r {
            Ok(t) => t == *arc,
            Err(a) => a == arc,
        },
{
    Arc::try_unwrap(arc)
}

} // verus!
