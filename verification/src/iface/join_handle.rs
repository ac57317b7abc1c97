use vstd::prelude::*;

verus! {

/// Which executor's native handle a [`JoinHandle`] wraps. The backends differ
/// in how a task is cancelled and how it is left running.
#[derive(Debug, Clone, Copy, PartialEq, Eq, Structural)]
pub enum JoinBackend {
    /// A `tokio::task::JoinHandle`: dropping it leaves the task running, so the
    /// task is cancelled by an explicit abort.
    Tokio,
    /// An `async_global_executor::Task`: dropping it cancels the task, and its
    /// `detach` leaves the task running.
    AsyncGlobal,
    /// An `async_std::task::JoinHandle` of an abortable future, with its abort
    /// handle: dropping the join handle leaves the task running, so the task is
    /// cancelled through the abort handle.
    AsyncStd,
    /// A `futures_util::future::RemoteHandle`: dropping it cancels the remote
    /// future, and its `forget` leaves the future running.
    RemoteHandle,
}

/// What the owner of a native handle must do when the [`JoinHandle`] is
/// detached.
#[derive(Debug)]
pub enum DetachStep<H> {
    /// Nothing beyond remembering the detachment, which the handle did.
    Remember,
    /// Call the task's own `detach` on this native handle.
    DetachTask(H),
    /// Call `forget` on this remote handle.
    Forget(H),
}

/// What the owner of a native handle must do when the [`JoinHandle`] is
/// dropped.
#[derive(Debug)]
pub enum ReleaseStep<H> {
    /// Abort the task through this native handle, then drop it.
    Abort(H),
    /// Drop this native handle, if there is one, and do nothing else.
    Discard(Option<H>),
}

/// Whether dropping the handle cancels the task, given the backend and what
/// [`JoinHandle::release`] asked of the owner.
pub open spec fn release_cancels<H>(backend: JoinBackend, step: ReleaseStep<H>) -> bool {
    match step {
        ReleaseStep::Abort(_) => true,
        ReleaseStep::Discard(Some(_)) => backend == JoinBackend::AsyncGlobal || backend
            == JoinBackend::RemoteHandle,
        ReleaseStep::Discard(None) => false,
    }
}

/// A framework agnostic join handle: the state that decides what happens to a
/// spawned task when its handle is detached, polled or dropped. `H` is the
/// executor's native handle. Dropping the handle cancels the task unless the
/// handle was detached first.
#[derive(Debug)]
pub struct JoinHandle<H> {
    backend: JoinBackend,
    native: Option<H>,
    detached: bool,
}

/// The handle after [`JoinHandle::detach`], and what the owner must do.
pub open spec fn detach_spec<H>(backend: JoinBackend, native: Option<H>) -> (Option<H>, DetachStep<H>) {
    match backend {
        JoinBackend::Tokio | JoinBackend::AsyncStd => (native, DetachStep::Remember),
        JoinBackend::AsyncGlobal => match native {
            Some(h) => (None, DetachStep::DetachTask(h)),
            None => (None, DetachStep::Remember),
        },
        JoinBackend::RemoteHandle => match native {
            Some(h) => (None, DetachStep::Forget(h)),
            None => (None, DetachStep::Remember),
        },
    }
}

/// What [`JoinHandle::release`] asks of the owner.
pub open spec fn release_spec<H>(backend: JoinBackend, native: Option<H>, detached: bool) -> ReleaseStep<H> {
    match backend {
        JoinBackend::Tokio | JoinBackend::AsyncStd => match native {
            Some(h) => if detached {
                ReleaseStep::Discard(Some(h))
            } else {
                ReleaseStep::Abort(h)
            },
            None => ReleaseStep::Discard(None),
        },
        JoinBackend::AsyncGlobal | JoinBackend::RemoteHandle => ReleaseStep::Discard(native),
    }
}

/// Why polling a [`JoinHandle`] cannot produce the task's output.
#[derive(Debug)]
pub enum JoinFault<E> {
    /// The tokio task was cancelled or panicked, generally because the
    /// executor was dropped too early; carries tokio's error.
    Cancelled(E),
    /// The abortable async-std task reports that it was aborted, which cannot
    /// happen while this handle, the only holder of the abort handle, exists.
    AbortedWhileHeld,
}

impl<E> JoinFault<E> {
    /// The message that the owner of the handle fails with, followed by the
    /// native error where there is one.
    pub fn message(&self) -> (s: &'static str)
        ensures
            self is Cancelled ==> s@ == "Task has been canceled. Are you dropping the executor to early? Error: "@,
            self is AbortedWhileHeld ==> s@ == "The task was aborted while its JoinHandle holds the only abort handle."@,
    {
        match self {
            JoinFault::Cancelled(_) => "Task has been canceled. Are you dropping the executor to early? Error: ",
            JoinFault::AbortedWhileHeld => "The task was aborted while its JoinHandle holds the only abort handle.",
        }
    }
}

/// What polling the handle yields, given what the native handle yielded.
pub open spec fn outcome_spec<T, E>(backend: JoinBackend, native: Result<T, E>) -> Result<T, JoinFault<E>> {
    match native {
        Ok(t) => Ok(t),
        Err(e) => if backend == JoinBackend::AsyncStd {
            Err(JoinFault::AbortedWhileHeld)
        } else {
            Err(JoinFault::Cancelled(e))
        },
    }
}

impl<H> JoinHandle<H> {
    /// The backend whose native handle this wraps.
    pub closed spec fn backend(self) -> JoinBackend {
        self.backend
    }

    /// The native handle, while this handle still holds it.
    pub closed spec fn native(self) -> Option<H> {
        self.native
    }

    /// Whether the handle was detached.
    pub closed spec fn detached(self) -> bool {
        self.detached
    }

    /// Make a wrapper around a `tokio::task::JoinHandle`.
    pub fn tokio(handle: H) -> (j: Self)
        ensures
            j.backend() == JoinBackend::Tokio,
            j.native() == Some(handle),
            !j.detached(),
    {
        JoinHandle { backend: JoinBackend::Tokio, native: Some(handle), detached: false }
    }

    /// Make a wrapper around an `async_global_executor::Task`.
    pub fn async_global(task: H) -> (j: Self)
        ensures
            j.backend() == JoinBackend::AsyncGlobal,
            j.native() == Some(task),
            !j.detached(),
    {
        JoinHandle { backend: JoinBackend::AsyncGlobal, native: Some(task), detached: false }
    }

    /// Make a wrapper around an `async_std::task::JoinHandle` of an abortable
    /// future together with its abort handle.
    pub fn async_std(handle: H) -> (j: Self)
        ensures
            j.backend() == JoinBackend::AsyncStd,
            j.native() == Some(handle),
            !j.detached(),
    {
        JoinHandle { backend: JoinBackend::AsyncStd, native: Some(handle), detached: false }
    }

    /// Make a wrapper around a `futures_util::future::RemoteHandle`.
    pub fn remote_handle(handle: H) -> (j: Self)
        ensures
            j.backend() == JoinBackend::RemoteHandle,
            j.native() == Some(handle),
            !j.detached(),
    {
        JoinHandle { backend: JoinBackend::RemoteHandle, native: Some(handle), detached: false }
    }

    /// Which backend this handle wraps.
    pub fn kind(&self) -> (b: JoinBackend)
        ensures
            b == self.backend(),
    {
        self.backend
    }

    /// Marks the handle detached, so that dropping it leaves the task running,
    /// and says what the owner must do to the native handle now.
    pub fn detach(&mut self) -> (step: DetachStep<H>)
        ensures
            final(self).backend() == old(self).backend(),
            final(self).detached(),
            (final(self).native(), step) == detach_spec(old(self).backend(), old(self).native()),
    {
        self.detached = true;
        match self.backend {
            JoinBackend::Tokio | JoinBackend::AsyncStd => DetachStep::Remember,
            JoinBackend::AsyncGlobal => match self.native.take() {
                Some(h) => DetachStep::DetachTask(h),
                None => DetachStep::Remember,
            },
            JoinBackend::RemoteHandle => match self.native.take() {
                Some(h) => DetachStep::Forget(h),
                None => DetachStep::Remember,
            },
        }
    }

    /// The native handle to poll for the task's output; `None` once the
    /// handle was detached from a backend whose detaching hands the native
    /// handle on (polling then is a usage error of the owner).
    pub fn native_mut(&mut self) -> (r: Option<&mut H>)
        ensures
            r is Some <==> old(self).native() is Some,
            r matches Some(h) ==> *h == old(self).native()->0,
            final(self).backend() == old(self).backend(),
            final(self).detached() == old(self).detached(),
            r matches Some(h) ==> final(self).native() == Some(*final(h)),
            r is None ==> final(self).native() == old(self).native(),
    {
        self.native.as_mut()
    }

    /// The task's output from what a native handle that reports failure
    /// (tokio's, and async-std's of an abortable future) yielded.
    pub fn outcome<T, E>(&self, native: Result<T, E>) -> (r: Result<T, JoinFault<E>>)
        ensures
            r == outcome_spec(self.backend(), native),
            native matches Ok(t) ==> r == Ok::<T, JoinFault<E>>(t),
            native is Err ==> r is Err,
    {
        match native {
            Ok(t) => Ok(t),
            Err(e) => match self.backend {
                JoinBackend::AsyncStd => Err(JoinFault::AbortedWhileHeld),
                _ => Err(JoinFault::Cancelled(e)),
            },
        }
    }

    /// The drop of the handle: takes the native handle out and says whether
    /// the owner must abort the task through it before dropping it.
    pub fn release(&mut self) -> (step: ReleaseStep<H>)
        ensures
            step == release_spec(old(self).backend(), old(self).native(), old(self).detached()),
            final(self).native() is None,
            final(self).backend() == old(self).backend(),
            final(self).detached() == old(self).detached(),
    {
        let native = self.native.take();
        match self.backend {
            JoinBackend::Tokio | JoinBackend::AsyncStd => match native {
                Some(h) => if self.detached {
                    ReleaseStep::Discard(Some(h))
                } else {
                    ReleaseStep::Abort(h)
                },
                None => ReleaseStep::Discard(None),
            },
            JoinBackend::AsyncGlobal | JoinBackend::RemoteHandle => ReleaseStep::Discard(native),
        }
    }
}

/// Dropping a handle that was not detached cancels its task, whichever backend
/// it wraps.
pub proof fn law_drop_cancels<H>(backend: JoinBackend, native: H)
    ensures
        release_cancels(backend, release_spec(backend, Some(native), false)),
{
}

/// Detaching a handle and then dropping it leaves the task running, whichever
/// backend it wraps.
pub proof fn law_detach_keeps_running<H>(backend: JoinBackend, native: H)
    ensures
        ({
            let (rest, step) = detach_spec(backend, Some(native));
            !release_cancels(backend, release_spec(backend, rest, true))
        }),
{
}

/// Detaching hands the native handle on exactly for the backends whose
/// handles need a call to let the task run on, and leaves the others holding
/// their native handle.
pub proof fn law_detach_hands_on<H>(backend: JoinBackend, native: H)
    ensures
        ({
            let (rest, step) = detach_spec(backend, Some(native));
            &&& backend == JoinBackend::AsyncGlobal ==> step == DetachStep::DetachTask(native)
            &&& backend == JoinBackend::RemoteHandle ==> step == DetachStep::Forget(native)
            &&& (backend == JoinBackend::Tokio || backend == JoinBackend::AsyncStd) ==> (rest
                == Some(native) && step == DetachStep::<H>::Remember)
        }),
{
}

/// Dropping is done once: after the native handle was released, a further
/// release asks nothing of the owner, whatever the backend and the detachment.
pub proof fn law_release_is_idempotent<H>(backend: JoinBackend, detached: bool)
    ensures
        release_spec::<H>(backend, None, detached) == ReleaseStep::<H>::Discard(None),
{
}

/// Detaching twice is detaching once: the second detach keeps what the first
/// left and asks nothing more of the owner.
pub proof fn law_detach_is_idempotent<H>(backend: JoinBackend, native: Option<H>)
    ensures
        ({
            let (rest, _) = detach_spec(backend, native);
            detach_spec(backend, rest) == (rest, DetachStep::<H>::Remember)
        }),
{
}

/// One operation on a live handle: detaching it, or polling its native handle,
/// which may change the native handle's value (to the one carried here).
pub enum JoinOp<H> {
    /// [`JoinHandle::detach`].
    Detach,
    /// A poll through [`JoinHandle::native_mut`] that left this native value.
    Poll(H),
}

/// The handle's native part and detachment after one operation.
pub open spec fn after_op<H>(backend: JoinBackend, state: (Option<H>, bool), op: JoinOp<H>) -> (
    Option<H>,
    bool,
) {
    match op {
        JoinOp::Detach => (detach_spec(backend, state.0).0, true),
        JoinOp::Poll(h) => (
            match state.0 {
                Some(_) => Some(h),
                None => None,
            },
            state.1,
        ),
    }
}

/// The handle's native part and detachment after a sequence of operations.
pub open spec fn after_ops<H>(backend: JoinBackend, state: (Option<H>, bool), ops: Seq<JoinOp<H>>) -> (
    Option<H>,
    bool,
)
    decreases ops.len(),
{
    if ops.len() == 0 {
        state
    } else {
        after_ops(backend, after_op(backend, state, ops[0]), ops.drop_first())
    }
}

/// Whether a sequence of operations detaches the handle.
pub open spec fn detaches<H>(ops: Seq<JoinOp<H>>) -> bool {
    exists|i: int| 0 <= i < ops.len() && #[trigger] ops[i] is Detach
}

/// A detached handle stays detached, and keeps no native handle that its drop
/// would cancel the task through.
proof fn lemma_detached_stays<H>(backend: JoinBackend, state: (Option<H>, bool), ops: Seq<JoinOp<H>>)
    requires
        state.1,
        (backend == JoinBackend::AsyncGlobal || backend == JoinBackend::RemoteHandle) ==> state.0 is None,
    ensures
        after_ops(backend, state, ops).1,
        (backend == JoinBackend::AsyncGlobal || backend == JoinBackend::RemoteHandle) ==> after_ops(
            backend,
            state,
            ops,
        ).0 is None,
    decreases ops.len(),
{
    if ops.len() > 0 {
        lemma_detached_stays(backend, after_op(backend, state, ops[0]), ops.drop_first());
    }
}

/// From a fresh handle, whatever polls and detaches happen, dropping the
/// handle cancels the task exactly when it was never detached.
pub proof fn law_drop_cancels_iff_never_detached<H>(backend: JoinBackend, native: H, ops: Seq<JoinOp<H>>)
    ensures
        ({
            let (rest, detached) = after_ops(backend, (Some(native), false), ops);
            release_cancels(backend, release_spec(backend, rest, detached))
        }) <==> !detaches(ops),
    decreases ops.len(),
{
    if ops.len() == 0 {
    } else {
        let tail = ops.drop_first();
        match ops[0] {
            JoinOp::Poll(h) => {
                law_drop_cancels_iff_never_detached(backend, h, tail);
                if detaches(tail) {
                    let i = choose|i: int| 0 <= i < tail.len() && #[trigger] tail[i] is Detach;
                    assert(ops[i + 1] is Detach);
                }
                if detaches(ops) {
                    let i = choose|i: int| 0 <= i < ops.len() && #[trigger] ops[i] is Detach;
                    assert(tail[i - 1] is Detach);
                }
            },
            JoinOp::Detach => {
                lemma_detached_stays(backend, after_op(backend, (Some(native), false), ops[0]), tail);
                assert(ops[0] is Detach);
            },
        }
    }
}

/// Only dropping aborts a task: detaching asks for no abort (its steps are
/// `Remember`, `DetachTask` and `Forget`), and the drop, whose step may be
/// `Abort`, takes the native handle out. Whatever operations follow a drop,
/// the handle holds no native handle, so no poll reaches a task that was
/// aborted.
pub proof fn law_no_poll_after_abort<H>(backend: JoinBackend, detached: bool, ops: Seq<JoinOp<H>>)
    ensures
        after_ops(backend, (None, detached), ops).0 is None,
    decreases ops.len(),
{
    if ops.len() > 0 {
        law_no_poll_after_abort(backend, after_op(backend, (None::<H>, detached), ops[0]).1, ops.drop_first());
    }
}

/// Whatever the backend, the output that the native handle yields is the
/// output that polling the handle yields, and only a native failure becomes
/// a [`JoinFault`].
pub proof fn law_output_passes_through<T, E>(backend: JoinBackend, native: Result<T, E>)
    ensures
        native matches Ok(t) ==> outcome_spec(backend, native) == Ok::<T, JoinFault<E>>(t),
        native is Err <==> outcome_spec(backend, native) is Err,
{
}

} // verus!
