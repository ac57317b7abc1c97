//! The tokio threadpool executor: how it is created, adopted from a running
//! runtime and shut down.

use vstd::prelude::*;
use vstd::string::{StringExecFns, to_string_from_display_ensures};
use std::sync::Arc;
use core::time::Duration;
use tokio::runtime::{Handle as RtHandle, Runtime as TokioRuntime};
use crate::exec::tokio_rt::{
    Flavor, arc_clone, arc_try_unwrap, build_runtime, current_handle, handle_flavor, handle_of_runtime, io_error_kind,
    new_multi_thread_builder, outside_runtime, runtime_handle, shut_down, shutdown_plan, shutdown_runtime_background,
    ShutdownDone,
    flavor_of_handle,
    threadpool_accepts,
};
use crate::exec::tokio_handle::TokioHandle;
use crate::iface::yield_now::YieldNow;

verus! {

/// Where a [`TokioTp`] spawns: a runtime it owns (shared between its clones),
/// or a handle to a runtime owned elsewhere.
#[derive(Debug)]
pub enum TpSpawner {
    /// A runtime owned by the executor and its clones.
    Runtime(Arc<TokioRuntime>),
    /// A handle to a runtime that the executor does not own.
    Handle(RtHandle),
}

/// The scheduler of the runtime that a spawner spawns on.
pub open spec fn tp_spawner_flavor(spawner: TpSpawner) -> Flavor {
    match spawner {
        TpSpawner::Runtime(rt) => flavor_of_handle(handle_of_runtime(*rt)),
        TpSpawner::Handle(h) => flavor_of_handle(h),
    }
}

impl Clone for TpSpawner {
    /// The same runtime, shared once more, or the same handle.
    fn clone(&self) -> (c: Self)
        ensures
            c == *self,
    {
        match self {
            TpSpawner::Runtime(rt) => TpSpawner::Runtime(arc_clone(rt)),
            TpSpawner::Handle(h) => TpSpawner::Handle(h.clone()),
        }
    }
}

/// An executor that uses a multithreaded `tokio::runtime::Runtime`. That its
/// runtime is multithreaded is guaranteed by the type: it is the type's
/// invariant, which every constructor establishes.
#[derive(Debug)]
pub struct TokioTp {
    spawner: TpSpawner,
}

impl Clone for TokioTp {
    /// Another executor on the same runtime.
    fn clone(&self) -> (c: Self)
        ensures
            c.spawner_spec() == self.spawner_spec(),
    {
        proof {
            use_type_invariant(self);
        }
        TokioTp { spawner: self.spawner.clone() }
    }
}

/// A few errors that can happen while using the tokio threadpool executor.
#[derive(Debug, Clone)]
pub enum TokioTpErr {
    /// The tokio runtime builder returned an error of this kind when
    /// constructing the runtime.
    Builder(std::io::ErrorKind),
    /// There are other clones of the runtime, so it cannot be shut down.
    Cloned(TokioTp),
    /// The executor was constructed from a handle, so it cannot be shut down.
    Handle(TokioTp),
    /// No runtime is entered on this thread.
    NoRuntime,
    /// The runtime is not multithreaded.
    WrongFlavour,
}

impl TokioTp {
    /// Every `TokioTp` spawns on a multithreaded runtime.
    #[verifier::type_invariant]
    spec fn runs_on_threadpool(self) -> bool {
        threadpool_accepts(tp_spawner_flavor(self.spawner))
    }

    /// Where the executor spawns.
    pub closed spec fn spawner_spec(self) -> TpSpawner {
        self.spawner
    }

    /// Where the executor spawns: always on a multithreaded runtime.
    pub fn spawner(&self) -> (s: &TpSpawner)
        ensures
            *s == self.spawner_spec(),
            threadpool_accepts(tp_spawner_flavor(*s)),
    {
        proof {
            use_type_invariant(self);
        }
        &self.spawner
    }

    /// The executor over an owned multithreaded runtime.
    pub fn from_owned_runtime(rt: TokioRuntime) -> (tp: Self)
        requires
            threadpool_accepts(flavor_of_handle(handle_of_runtime(rt))),
        ensures
            tp.spawner_spec() matches TpSpawner::Runtime(a) && *a == rt,
    {
        TokioTp { spawner: TpSpawner::Runtime(Arc::new(rt)) }
    }

    /// The executor over an owned runtime whose scheduler is `flavor`; the
    /// runtime is handed back unless it is multithreaded.
    pub fn from_runtime_of_flavor(rt: TokioRuntime, flavor: Flavor) -> (r: Result<Self, TokioRuntime>)
        requires
            flavor == flavor_of_handle(handle_of_runtime(rt)),
        ensures
            threadpool_accepts(flavor) <==> r is Ok,
            r matches Ok(tp) ==> tp.spawner_spec() matches TpSpawner::Runtime(a) && *a == rt,
            r matches Err(back) ==> back == rt,
    {
        match flavor {
            Flavor::MultiThread => Ok(TokioTp { spawner: TpSpawner::Runtime(Arc::new(rt)) }),
            _ => Err(rt),
        }
    }

    /// The executor over a handle to a runtime whose scheduler is `flavor`;
    /// the handle is handed back unless the runtime is multithreaded.
    pub fn from_handle_of_flavor(handle: RtHandle, flavor: Flavor) -> (r: Result<Self, RtHandle>)
        requires
            flavor == flavor_of_handle(handle),
        ensures
            threadpool_accepts(flavor) <==> r is Ok,
            r matches Ok(tp) ==> tp.spawner_spec() == TpSpawner::Handle(handle),
            r matches Err(back) ==> back == handle,
    {
        match flavor {
            Flavor::MultiThread => Ok(TokioTp { spawner: TpSpawner::Handle(handle) }),
            _ => Err(handle),
        }
    }

    /// Create the executor from a runtime. Fails, handing the runtime back,
    /// unless the runtime is multithreaded.
    pub fn try_from_runtime(rt: TokioRuntime) -> (r: Result<Self, TokioRuntime>)
        ensures
            r is Ok <==> threadpool_accepts(flavor_of_handle(handle_of_runtime(rt))),
            r matches Ok(tp) ==> tp.spawner_spec() matches TpSpawner::Runtime(a) && *a == rt,
            r matches Err(back) ==> back == rt,
    {
        let flavor = handle_flavor(runtime_handle(&rt));
        Self::from_runtime_of_flavor(rt, flavor)
    }

    /// Create the executor from a handle. Fails, handing the handle back,
    /// unless the runtime is multithreaded.
    pub fn try_from_handle(handle: RtHandle) -> (r: Result<Self, RtHandle>)
        ensures
            r is Ok <==> threadpool_accepts(flavor_of_handle(handle)),
            r matches Ok(tp) ==> tp.spawner_spec() == TpSpawner::Handle(handle),
            r matches Err(back) ==> back == handle,
    {
        let flavor = handle_flavor(&handle);
        Self::from_handle_of_flavor(handle, flavor)
    }

    /// The executor over what the runtime builder returned: the runtime, or
    /// the kind of the builder's error.
    pub fn from_build(built: Result<TokioRuntime, std::io::ErrorKind>) -> (r: Result<Self, TokioTpErr>)
        requires
            built matches Ok(rt) ==> threadpool_accepts(flavor_of_handle(handle_of_runtime(rt))),
        ensures
            built matches Ok(rt) ==> r matches Ok(tp) && tp.spawner_spec() matches TpSpawner::Runtime(
                a,
            ) && *a == rt,
            built matches Err(kind) ==> r matches Err(TokioTpErr::Builder(k)) && k == kind,
    {
        match built {
            Ok(rt) => Ok(TokioTp { spawner: TpSpawner::Runtime(Arc::new(rt)) }),
            Err(kind) => Err(TokioTpErr::Builder(kind)),
        }
    }

    /// Create a new executor over a default multithreaded runtime.
    pub fn new() -> (r: Result<Self, TokioTpErr>)
        ensures
            r matches Ok(tp) ==> tp.spawner_spec() matches TpSpawner::Runtime(a) && threadpool_accepts(
                flavor_of_handle(handle_of_runtime(*a)),
            ),
            r matches Err(e) ==> e is Builder,
    {
        let mut builder = new_multi_thread_builder();
        let built = match build_runtime(&mut builder) {
            Ok(rt) => Ok(rt),
            Err(e) => Err(io_error_kind(&e)),
        };
        Self::from_build(built)
    }

    /// The executor over the runtime entered on this thread, given the handle
    /// to it and its scheduler, if a runtime is entered.
    pub fn from_current(current: Option<(RtHandle, Flavor)>) -> (r: Result<Self, TokioTpErr>)
        requires
            current matches Some((h, f)) ==> f == flavor_of_handle(h),
        ensures
            current is None ==> r matches Err(TokioTpErr::NoRuntime),
            current matches Some((h, f)) ==> (threadpool_accepts(f) ==> (r matches Ok(tp)
                && tp.spawner_spec() == TpSpawner::Handle(h))),
            current matches Some((h, f)) ==> (!threadpool_accepts(f) ==> (r matches Err(
                TokioTpErr::WrongFlavour,
            ))),
    {
        match current {
            None => Err(TokioTpErr::NoRuntime),
            Some((handle, flavor)) => match Self::from_handle_of_flavor(handle, flavor) {
                Ok(tp) => Ok(tp),
                Err(_) => Err(TokioTpErr::WrongFlavour),
            },
        }
    }

    /// Try to construct the executor from the runtime entered on this thread.
    /// Fails when no runtime is entered or when it is not multithreaded.
    pub fn try_current() -> (r: Result<Self, TokioTpErr>)
        ensures
            r matches Ok(tp) ==> tp.spawner_spec() matches TpSpawner::Handle(h) && threadpool_accepts(
                flavor_of_handle(h),
            ),
            r matches Err(e) ==> e is NoRuntime || e is WrongFlavour,
    {
        let current = match current_handle() {
            None => None,
            Some(handle) => {
                let flavor = handle_flavor(&handle);
                Some((handle, flavor))
            },
        };
        Self::from_current(current)
    }

    /// A handle to this executor's runtime that can easily be cloned and that
    /// spawns on it. It only works while the runtime is alive. An executor
    /// made from a handle gives that handle; one that owns its runtime gives
    /// the runtime's own handle. Either way the handle's runtime is
    /// multithreaded.
    pub fn handle(&self) -> (h: TokioHandle)
        ensures
            self.spawner_spec() matches TpSpawner::Handle(own) ==> h.spawner_spec() == own,
            self.spawner_spec() matches TpSpawner::Runtime(rt) ==> h.spawner_spec()
                == handle_of_runtime(*rt),
            threadpool_accepts(flavor_of_handle(h.spawner_spec())),
    {
        proof {
            use_type_invariant(self);
        }
        match &self.spawner {
            TpSpawner::Runtime(rt) => TokioHandle::new(runtime_handle(rt).clone()),
            TpSpawner::Handle(h) => TokioHandle::new(h.clone()),
        }
    }

    /// What the last step of a shutdown gives, from what `Arc::try_unwrap`
    /// returned on the executor's runtime: the runtime, when this was the
    /// last owner, and otherwise the executor itself back in
    /// [`TokioTpErr::Cloned`].
    pub fn from_unwrapped(unwrapped: Result<TokioRuntime, Arc<TokioRuntime>>) -> (r: Result<
        TokioRuntime,
        TokioTpErr,
    >)
        requires
            unwrapped matches Err(a) ==> threadpool_accepts(flavor_of_handle(handle_of_runtime(*a))),
        ensures
            unwrapped matches Ok(rt) ==> r == Ok::<TokioRuntime, TokioTpErr>(rt),
            unwrapped matches Err(a) ==> r matches Err(TokioTpErr::Cloned(tp)) && tp.spawner_spec()
                == TpSpawner::Runtime(a),
    {
        match unwrapped {
            Ok(rt) => Ok(rt),
            Err(a) => Err(TokioTpErr::Cloned(TokioTp { spawner: TpSpawner::Runtime(a) })),
        }
    }

    /// The runtime, taken out of the executor so that it can be shut down.
    /// An executor made from a handle is handed back in
    /// [`TokioTpErr::Handle`]; one whose runtime other clones still share is
    /// handed back in [`TokioTpErr::Cloned`].
    pub fn into_sole_runtime(self) -> (r: Result<TokioRuntime, TokioTpErr>)
        ensures
            self.spawner_spec() is Handle ==> r == Err::<TokioRuntime, TokioTpErr>(
                TokioTpErr::Handle(self),
            ),
            self.spawner_spec() matches TpSpawner::Runtime(a) ==> (r == Ok::<
                TokioRuntime,
                TokioTpErr,
            >(*a) || r == Err::<TokioRuntime, TokioTpErr>(TokioTpErr::Cloned(self))),
    {
        proof {
            use_type_invariant(&self);
        }
        let TokioTp { spawner } = self;
        match spawner {
            TpSpawner::Handle(handle) => Err(
                TokioTpErr::Handle(TokioTp { spawner: TpSpawner::Handle(handle) }),
            ),
            TpSpawner::Runtime(arc) => Self::from_unwrapped(arc_try_unwrap(arc)),
        }
    }

    /// Shuts down the runtime, waiting at most `duration` for blocking tasks,
    /// and gives the receipt of the tokio shutdown made. Only the last clone
    /// of an executor that owns its runtime can do so: an executor made from
    /// a handle is handed back in [`TokioTpErr::Handle`], one with other
    /// clones alive in [`TokioTpErr::Cloned`]. Called where a tokio runtime is
    /// entered, where tokio does not allow blocking, it shuts down without
    /// waiting.
    pub fn shutdown_timeout_made(self, duration: Duration) -> (r: Result<ShutdownDone, TokioTpErr>)
        ensures
            self.spawner_spec() is Handle ==> r == Err::<ShutdownDone, TokioTpErr>(
                TokioTpErr::Handle(self),
            ),
            self.spawner_spec() is Runtime ==> (r == Err::<ShutdownDone, TokioTpErr>(
                TokioTpErr::Cloned(self),
            ) || (r matches Ok(done) && (done.plan() == shutdown_plan(duration, true)
                || done.plan() == shutdown_plan(duration, false)))),
    {
        match self.into_sole_runtime() {
            Ok(rt) => Ok(shut_down(rt, duration, outside_runtime())),
            Err(e) => Err(e),
        }
    }

    /// Shuts down the runtime without waiting for blocking tasks, and gives
    /// the receipt of the tokio shutdown made. Fails as
    /// [`TokioTp::shutdown_timeout_made`] does.
    pub fn shutdown_background_made(self) -> (r: Result<ShutdownDone, TokioTpErr>)
        ensures
            self.spawner_spec() is Handle ==> r == Err::<ShutdownDone, TokioTpErr>(
                TokioTpErr::Handle(self),
            ),
            self.spawner_spec() is Runtime ==> (r == Err::<ShutdownDone, TokioTpErr>(
                TokioTpErr::Cloned(self),
            ) || (r matches Ok(done) && done.plan() is Background)),
    {
        match self.into_sole_runtime() {
            Ok(rt) => Ok(shutdown_runtime_background(rt)),
            Err(e) => Err(e),
        }
    }

    /// Shuts down the runtime, waiting at most `duration` for blocking tasks:
    /// [`TokioTp::shutdown_timeout_made`] without the receipt.
    pub fn shutdown_timeout(self, duration: Duration) -> (r: Result<(), TokioTpErr>)
        ensures
            self.spawner_spec() is Handle ==> r == Err::<(), TokioTpErr>(TokioTpErr::Handle(self)),
            self.spawner_spec() is Runtime ==> (r is Ok || r == Err::<(), TokioTpErr>(
                TokioTpErr::Cloned(self),
            )),
    {
        match self.shutdown_timeout_made(duration) {
            Ok(_) => Ok(()),
            Err(e) => Err(e),
        }
    }

    /// Shuts down the runtime without waiting for blocking tasks:
    /// [`TokioTp::shutdown_background_made`] without the receipt.
    pub fn shutdown_background(self) -> (r: Result<(), TokioTpErr>)
        ensures
            self.spawner_spec() is Handle ==> r == Err::<(), TokioTpErr>(TokioTpErr::Handle(self)),
            self.spawner_spec() is Runtime ==> (r is Ok || r == Err::<(), TokioTpErr>(
                TokioTpErr::Cloned(self),
            )),
    {
        match self.shutdown_background_made() {
            Ok(_) => Ok(()),
            Err(e) => Err(e),
        }
    }
}

impl YieldNow for TokioTp {
}

impl TokioTpErr {
    /// The error's message, as its `Display` writes it.
    pub fn message(&self) -> (s: String)
        ensures
            self is Cloned ==> s@
                == "The TokioTp executor was cloned. Only the last copy can shut it down."@,
            self is Handle ==> s@
                == "The TokioTp was created from tokio::runtime::Handle. Only an owned executor (created from `Runtime`) can be shut down."@,
            self is NoRuntime ==> s@
                == "Call to tokio::Handle::try_current failed, generally because no entered runtime is active."@,
            self is WrongFlavour ==> s@ == "Can't create TokioTp from a current thread `Runtime`."@,
            self matches TokioTpErr::Builder(kind) ==> exists|text: String|
                #[trigger] to_string_from_display_ensures(kind, text) && s@
                    == "tokio::runtime::Builder returned an error: "@ + text@,
    {
        match self {
            TokioTpErr::Builder(kind) => {
                let text = kind.to_string();
                String::from_str("tokio::runtime::Builder returned an error: ").concat(text.as_str())
            },
            TokioTpErr::Cloned(_) => String::from_str(
                "The TokioTp executor was cloned. Only the last copy can shut it down.",
            ),
            TokioTpErr::Handle(_) => String::from_str(
                "The TokioTp was created from tokio::runtime::Handle. Only an owned executor (created from `Runtime`) can be shut down.",
            ),
            TokioTpErr::NoRuntime => String::from_str(
                "Call to tokio::Handle::try_current failed, generally because no entered runtime is active.",
            ),
            TokioTpErr::WrongFlavour => String::from_str(
                "Can't create TokioTp from a current thread `Runtime`.",
            ),
        }
    }
}

} // verus!
