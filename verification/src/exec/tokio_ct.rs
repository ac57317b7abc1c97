//! The tokio current-thread executor: how it is created and adopted from a
//! running runtime.

use vstd::prelude::*;
use vstd::string::{StringExecFns, to_string_from_display_ensures};
use std::rc::Rc;
use tokio::runtime::{Handle as RtHandle, Runtime as TokioRuntime};
use tokio::task::LocalSet;
use crate::exec::tokio_rt::{
    Flavor, build_runtime, current_handle, current_thread_accepts, flavor_of_handle, handle_flavor,
    handle_of_runtime, io_error_kind, rc_clone,
    new_current_thread_builder, new_local_set, runtime_handle,
};
use crate::iface::yield_now::YieldNow;

verus! {

/// Where a [`TokioCt`] runs its `Send` tasks: a runtime it owns (shared between its clones),
/// or a handle to a runtime owned elsewhere.
#[derive(Debug)]
pub enum CtSpawner {
    /// A runtime owned by the executor and its clones.
    Runtime(Rc<TokioRuntime>),
    /// A handle to a runtime that the executor does not own.
    Handle(RtHandle),
}

impl Clone for CtSpawner {
    /// The same runtime, shared once more, or the same handle.
    fn clone(&self) -> (c: Self)
        ensures
            c == *self,
    {
        match self {
            CtSpawner::Runtime(rt) => CtSpawner::Runtime(rc_clone(rt)),
            CtSpawner::Handle(h) => CtSpawner::Handle(h.clone()),
        }
    }
}

/// The scheduler of the runtime that a spawner spawns on.
pub open spec fn ct_spawner_flavor(spawner: CtSpawner) -> Flavor {
    match spawner {
        CtSpawner::Runtime(rt) => flavor_of_handle(handle_of_runtime(*rt)),
        CtSpawner::Handle(h) => flavor_of_handle(h),
    }
}

/// An executor that uses a current-thread `tokio::runtime::Runtime` and a
/// `tokio::task::LocalSet`, so that it can spawn `!Send` futures. That its
/// runtime is current-thread is guaranteed by the type: it is the type's
/// invariant, which every constructor establishes.
#[derive(Debug)]
pub struct TokioCt {
    spawner: CtSpawner,
    local: Rc<LocalSet>,
}

impl Clone for TokioCt {
    /// Another executor on the same runtime, sharing the same local tasks.
    fn clone(&self) -> (c: Self)
        ensures
            c.spawner_spec() == self.spawner_spec(),
            c.local_spec() == self.local_spec(),
    {
        proof {
            use_type_invariant(self);
        }
        TokioCt { spawner: self.spawner.clone(), local: rc_clone(&self.local) }
    }
}

/// A few errors that can happen while using the tokio current-thread executor.
#[derive(Debug, Clone)]
pub enum TokioCtErr {
    /// The tokio runtime builder returned an error of this kind when
    /// constructing the runtime.
    Builder(std::io::ErrorKind),
    /// There are other clones of the runtime, so it cannot be shut down.
    Cloned(TokioCt),
    /// The executor was constructed from a handle, so it cannot be shut down.
    Handle(TokioCt),
    /// No runtime is entered on this thread.
    NoRuntime,
    /// The runtime is not current-thread.
    WrongFlavour,
}

impl TokioCt {
    /// Every `TokioCt` spawns on a current-thread runtime.
    #[verifier::type_invariant]
    spec fn runs_on_current_thread(self) -> bool {
        current_thread_accepts(ct_spawner_flavor(self.spawner))
    }

    /// Where the executor spawns.
    pub closed spec fn spawner_spec(self) -> CtSpawner {
        self.spawner
    }

    /// The set of `!Send` tasks that the executor runs.
    pub closed spec fn local_spec(self) -> LocalSet {
        *self.local
    }

    /// The set of `!Send` tasks that the executor runs.
    pub fn local(&self) -> (l: &LocalSet)
        ensures
            *l == self.local_spec(),
    {
        &self.local
    }

    /// Where the executor spawns: always on a current-thread runtime.
    pub fn spawner(&self) -> (s: &CtSpawner)
        ensures
            *s == self.spawner_spec(),
            current_thread_accepts(ct_spawner_flavor(*s)),
    {
        proof {
            use_type_invariant(self);
        }
        &self.spawner
    }

    /// The executor over an owned current-thread runtime, with a fresh set of
    /// local tasks.
    pub fn from_owned_runtime(rt: TokioRuntime) -> (ct: Self)
        requires
            current_thread_accepts(flavor_of_handle(handle_of_runtime(rt))),
        ensures
            ct.spawner_spec() matches CtSpawner::Runtime(a) && *a == rt,
    {
        TokioCt { spawner: CtSpawner::Runtime(Rc::new(rt)), local: Rc::new(new_local_set()) }
    }

    /// The executor over an owned runtime whose scheduler is `flavor`; the
    /// runtime is handed back unless it is current-thread.
    pub fn from_runtime_of_flavor(rt: TokioRuntime, flavor: Flavor) -> (r: Result<Self, TokioRuntime>)
        requires
            flavor == flavor_of_handle(handle_of_runtime(rt)),
        ensures
            current_thread_accepts(flavor) <==> r is Ok,
            r matches Ok(ct) ==> ct.spawner_spec() matches CtSpawner::Runtime(a) && *a == rt,
            r matches Err(back) ==> back == rt,
    {
        match flavor {
            Flavor::CurrentThread => Ok(
                TokioCt { spawner: CtSpawner::Runtime(Rc::new(rt)), local: Rc::new(new_local_set()) },
            ),
            _ => Err(rt),
        }
    }

    /// The executor over a handle to a runtime whose scheduler is `flavor`;
    /// the handle is handed back unless the runtime is current-thread.
    pub fn from_handle_of_flavor(handle: RtHandle, flavor: Flavor) -> (r: Result<Self, RtHandle>)
        requires
            flavor == flavor_of_handle(handle),
        ensures
            current_thread_accepts(flavor) <==> r is Ok,
            r matches Ok(ct) ==> ct.spawner_spec() == CtSpawner::Handle(handle),
            r matches Err(back) ==> back == handle,
    {
        match flavor {
            Flavor::CurrentThread => Ok(
                TokioCt { spawner: CtSpawner::Handle(handle), local: Rc::new(new_local_set()) },
            ),
            _ => Err(handle),
        }
    }

    /// Create the executor from a runtime. Fails, handing the runtime back,
    /// unless the runtime is current-thread.
    pub fn try_from_runtime(rt: TokioRuntime) -> (r: Result<Self, TokioRuntime>)
        ensures
            r is Ok <==> current_thread_accepts(flavor_of_handle(handle_of_runtime(rt))),
            r matches Ok(ct) ==> ct.spawner_spec() matches CtSpawner::Runtime(a) && *a == rt,
            r matches Err(back) ==> back == rt,
    {
        let flavor = handle_flavor(runtime_handle(&rt));
        Self::from_runtime_of_flavor(rt, flavor)
    }

    /// Create the executor from a handle. Fails, handing the handle back,
    /// unless the runtime is current-thread.
    pub fn try_from_handle(handle: RtHandle) -> (r: Result<Self, RtHandle>)
        ensures
            r is Ok <==> current_thread_accepts(flavor_of_handle(handle)),
            r matches Ok(ct) ==> ct.spawner_spec() == CtSpawner::Handle(handle),
            r matches Err(back) ==> back == handle,
    {
        let flavor = handle_flavor(&handle);
        Self::from_handle_of_flavor(handle, flavor)
    }

    /// The executor over what the runtime builder returned: the runtime, or
    /// the kind of the builder's error.
    pub fn from_build(built: Result<TokioRuntime, std::io::ErrorKind>) -> (r: Result<Self, TokioCtErr>)
        requires
            built matches Ok(rt) ==> current_thread_accepts(flavor_of_handle(handle_of_runtime(rt))),
        ensures
            built matches Ok(rt) ==> r matches Ok(ct) && ct.spawner_spec() matches CtSpawner::Runtime(
                a,
            ) && *a == rt,
            built matches Err(kind) ==> r matches Err(TokioCtErr::Builder(k)) && k == kind,
    {
        match built {
            Ok(rt) => Ok(Self::from_owned_runtime(rt)),
            Err(kind) => Err(TokioCtErr::Builder(kind)),
        }
    }

    /// Create a new executor over a default current-thread runtime.
    pub fn new() -> (r: Result<Self, TokioCtErr>)
        ensures
            r matches Ok(ct) ==> ct.spawner_spec() matches CtSpawner::Runtime(a) && current_thread_accepts(
                flavor_of_handle(handle_of_runtime(*a)),
            ),
            r matches Err(e) ==> e is Builder,
    {
        let mut builder = new_current_thread_builder();
        let built = match build_runtime(&mut builder) {
            Ok(rt) => Ok(rt),
            Err(e) => Err(io_error_kind(&e)),
        };
        Self::from_build(built)
    }

    /// The executor over the runtime entered on this thread, given the handle
    /// to it and its scheduler, if a runtime is entered.
    pub fn from_current(current: Option<(RtHandle, Flavor)>) -> (r: Result<Self, TokioCtErr>)
        requires
            current matches Some((h, f)) ==> f == flavor_of_handle(h),
        ensures
            current is None ==> r matches Err(TokioCtErr::NoRuntime),
            current matches Some((h, f)) ==> (current_thread_accepts(f) ==> (r matches Ok(ct)
                && ct.spawner_spec() == CtSpawner::Handle(h))),
            current matches Some((h, f)) ==> (!current_thread_accepts(f) ==> (r matches Err(
                TokioCtErr::WrongFlavour,
            ))),
    {
        match current {
            None => Err(TokioCtErr::NoRuntime),
            Some((handle, flavor)) => match Self::from_handle_of_flavor(handle, flavor) {
                Ok(ct) => Ok(ct),
                Err(_) => Err(TokioCtErr::WrongFlavour),
            },
        }
    }

    /// Try to construct the executor from the runtime entered on this thread.
    /// Fails when no runtime is entered or when it is not current-thread.
    pub fn try_current() -> (r: Result<Self, TokioCtErr>)
        ensures
            r matches Ok(ct) ==> ct.spawner_spec() matches CtSpawner::Handle(h) && current_thread_accepts(
                flavor_of_handle(h),
            ),
            r matches Err(e) ==> e is NoRuntime || e is WrongFlavour,
    {
        let current = match current_handle() {
            None => None,
            Some(handle) => {
                let flavor = handle_flavor(&handle);
                Some((handle, flavor))
            },
        };
        Self::from_current(current)
    }
}

impl YieldNow for TokioCt {
}

impl TokioCtErr {
    /// The error's message, as its `Display` writes it.
    pub fn message(&self) -> (s: String)
        ensures
            self is Cloned ==> s@
                == "The TokioCt executor was cloned. Only the last copy can shut it down."@,
            self is Handle ==> s@
                == "The TokioCt was created from tokio::runtime::Handle. Only an owned executor (created from `Runtime`) can be shut down."@,
            self is NoRuntime ==> s@
                == "Call to tokio::Handle::try_current failed, generally because no entered runtime is active."@,
            self is WrongFlavour ==> s@ == "Can't create TokioCt from a multithreaded `Runtime`."@,
            self matches TokioCtErr::Builder(kind) ==> exists|text: String|
                #[trigger] to_string_from_display_ensures(kind, text) && s@
                    == "tokio::runtime::Builder returned an error: "@ + text@,
    {
        match self {
            TokioCtErr::Builder(kind) => {
                let text = kind.to_string();
                String::from_str("tokio::runtime::Builder returned an error: ").concat(text.as_str())
            },
            TokioCtErr::Cloned(_) => String::from_str(
                "The TokioCt executor was cloned. Only the last copy can shut it down.",
            ),
            TokioCtErr::Handle(_) => String::from_str(
                "The TokioCt was created from tokio::runtime::Handle. Only an owned executor (created from `Runtime`) can be shut down.",
            ),
            TokioCtErr::NoRuntime => String::from_str(
                "Call to tokio::Handle::try_current failed, generally because no entered runtime is active.",
            ),
            TokioCtErr::WrongFlavour => String::from_str(
                "Can't create TokioCt from a multithreaded `Runtime`.",
            ),
        }
    }
}

} // verus!
