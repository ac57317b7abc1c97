use vstd::prelude::*;

verus! {

/// Which executor ran the blocking task of a [`BlockingHandle`].
#[derive(Debug, Clone, Copy, PartialEq, Eq, Structural)]
pub enum BlockingBackend {
    /// A `tokio::task::JoinHandle` of a blocking task.
    Tokio,
    /// The boxed future of an async-global-executor blocking task.
    AsyncGlobal,
    /// An `async_std::task::JoinHandle` of a blocking task.
    AsyncStd,
    /// A `std::thread::JoinHandle`, with a weak reference that is alive while
    /// the thread works.
    StdThread,
}

/// What one poll of a [`BlockingHandle`] asks of its owner.
#[derive(Debug)]
pub enum BlockingStep<H> {
    /// Poll the native handle (see [`BlockingHandle::native_mut`]).
    PollNative,
    /// The thread still works: wake the task's waker and report pending.
    WakeAndPend,
    /// The thread has finished: join it through this handle; its output is
    /// the result, and its panic is resumed.
    Join(H),
    /// The thread was already joined by an earlier poll: a usage error.
    AlreadyJoined,
}

/// One poll of the handle: the handle's native part afterwards, and the step.
pub open spec fn blocking_step<H>(backend: BlockingBackend, native: Option<H>, worker_alive: bool) -> (
    Option<H>,
    BlockingStep<H>,
) {
    if backend != BlockingBackend::StdThread {
        (native, BlockingStep::PollNative)
    } else if worker_alive {
        (native, BlockingStep::WakeAndPend)
    } else {
        match native {
            Some(h) => (None, BlockingStep::Join(h)),
            None => (None, BlockingStep::AlreadyJoined),
        }
    }
}

/// A framework agnostic handle to a blocking task. Await it for the output of
/// the task. A blocking task cannot be cancelled once it runs: dropping the
/// handle lets it run on in the background.
#[derive(Debug)]
pub struct BlockingHandle<H> {
    backend: BlockingBackend,
    native: Option<H>,
}

impl<H> BlockingHandle<H> {
    /// The executor that runs the task.
    pub closed spec fn backend(self) -> BlockingBackend {
        self.backend
    }

    /// The native handle, while this handle holds it.
    pub closed spec fn native(self) -> Option<H> {
        self.native
    }

    /// Make a wrapper around a `tokio::task::JoinHandle`.
    pub fn tokio(handle: H) -> (b: Self)
        ensures
            b.backend() == BlockingBackend::Tokio,
            b.native() == Some(handle),
    {
        BlockingHandle { backend: BlockingBackend::Tokio, native: Some(handle) }
    }

    /// Make a wrapper around the future of an async-global-executor blocking
    /// task.
    pub fn async_global(task: H) -> (b: Self)
        ensures
            b.backend() == BlockingBackend::AsyncGlobal,
            b.native() == Some(task),
    {
        BlockingHandle { backend: BlockingBackend::AsyncGlobal, native: Some(task) }
    }

    /// Make a wrapper around an `async_std::task::JoinHandle`.
    pub fn async_std(handle: H) -> (b: Self)
        ensures
            b.backend() == BlockingBackend::AsyncStd,
            b.native() == Some(handle),
    {
        BlockingHandle { backend: BlockingBackend::AsyncStd, native: Some(handle) }
    }

    /// Make a wrapper around a `std::thread::JoinHandle`; the owner keeps the
    /// weak reference that tells whether the thread still works.
    pub fn std_thread(handle: H) -> (b: Self)
        ensures
            b.backend() == BlockingBackend::StdThread,
            b.native() == Some(handle),
    {
        BlockingHandle { backend: BlockingBackend::StdThread, native: Some(handle) }
    }

    /// Which executor runs the task.
    pub fn kind(&self) -> (b: BlockingBackend)
        ensures
            b == self.backend(),
    {
        self.backend
    }

    /// One poll: `worker_alive` tells whether the weak reference of a thread
    /// backend still upgrades, that is whether the thread still works.
    pub fn poll_step(&mut self, worker_alive: bool) -> (step: BlockingStep<H>)
        ensures
            (final(self).native(), step) == blocking_step(old(self).backend(), old(self).native(), worker_alive),
            final(self).backend() == old(self).backend(),
    {
        match self.backend {
            BlockingBackend::StdThread => {
                if worker_alive {
                    BlockingStep::WakeAndPend
                } else {
                    match self.native.take() {
                        Some(h) => BlockingStep::Join(h),
                        None => BlockingStep::AlreadyJoined,
                    }
                }
            },
            _ => BlockingStep::PollNative,
        }
    }

    /// The native handle to poll, for the backends that are polled.
    pub fn native_mut(&mut self) -> (r: Option<&mut H>)
        ensures
            r is Some <==> old(self).native() is Some,
            r matches Some(h) ==> *h == old(self).native()->0,
            final(self).backend() == old(self).backend(),
            r matches Some(h) ==> final(self).native() == Some(*final(h)),
            r is None ==> final(self).native() == old(self).native(),
    {
        self.native.as_mut()
    }

    /// What the owner makes of the result that a tokio task's handle yielded:
    /// the task's output, or, when the task was cancelled or panicked, tokio's
    /// error together with the message that the owner fails with.
    pub fn tokio_outcome<T, E>(&self, native: Result<T, E>) -> (r: Result<T, (&'static str, E)>)
        ensures
            native matches Ok(t) ==> r == Ok::<T, (&'static str, E)>(t),
            native matches Err(e) ==> r matches Err((m, e2)) && e2 == e && m@
                == "Task has been canceled or has panicked. Are you dropping the executor to early? Error: "@,
    {
        match native {
            Ok(t) => Ok(t),
            Err(e) => {
                Err(("Task has been canceled or has panicked. Are you dropping the executor to early? Error: ", e))
            },
        }
    }
}

/// While the thread works, polling never joins it and keeps its handle.
pub proof fn law_working_thread_is_not_joined<H>(native: Option<H>)
    ensures
        blocking_step(BlockingBackend::StdThread, native, true) == (
            native,
            BlockingStep::<H>::WakeAndPend,
        ),
{
}

/// A finished thread is joined exactly once: the first poll after it finished
/// joins it, and a further poll reports that it was already joined.
pub proof fn law_thread_joined_once<H>(native: H)
    ensures
        ({
            let (rest, first) = blocking_step(BlockingBackend::StdThread, Some(native), false);
            &&& first == BlockingStep::Join(native)
            &&& blocking_step(BlockingBackend::StdThread, rest, false).1 == BlockingStep::<
                H,
            >::AlreadyJoined
        }),
{
}

/// How many of the polls, each told whether the thread still works, join the
/// thread.
pub open spec fn joins_over<H>(backend: BlockingBackend, native: Option<H>, alive: Seq<bool>) -> nat
    decreases alive.len(),
{
    if alive.len() == 0 {
        0
    } else {
        let (rest, step) = blocking_step(backend, native, alive[0]);
        (if step is Join {
            1nat
        } else {
            0nat
        }) + joins_over(backend, rest, alive.drop_first())
    }
}

/// However the polls go, the thread is joined at most once, and never once
/// its handle was taken.
pub proof fn law_joined_at_most_once<H>(backend: BlockingBackend, native: Option<H>, alive: Seq<bool>)
    ensures
        joins_over(backend, native, alive) <= 1,
        native is None ==> joins_over(backend, native, alive) == 0,
    decreases alive.len(),
{
    if alive.len() > 0 {
        let (rest, _) = blocking_step(backend, native, alive[0]);
        law_joined_at_most_once(backend, rest, alive.drop_first());
        if blocking_step(backend, native, alive[0]).1 is Join {
            law_joined_at_most_once(backend, None::<H>, alive.drop_first());
        }
    }
}

/// A thread-backed handle joins its thread exactly when some poll finds the
/// thread finished.
pub proof fn law_joined_iff_finished_seen<H>(native: H, alive: Seq<bool>)
    ensures
        joins_over(BlockingBackend::StdThread, Some(native), alive) == 1 <==> exists|i: int|
            0 <= i < alive.len() && !#[trigger] alive[i],
    decreases alive.len(),
{
    if alive.len() > 0 {
        let tail = alive.drop_first();
        if alive[0] {
            law_joined_iff_finished_seen(native, tail);
            if exists|i: int| 0 <= i < tail.len() && !#[trigger] tail[i] {
                let i = choose|i: int| 0 <= i < tail.len() && !#[trigger] tail[i];
                assert(!alive[i + 1]);
            }
            if exists|i: int| 0 <= i < alive.len() && !#[trigger] alive[i] {
                let i = choose|i: int| 0 <= i < alive.len() && !#[trigger] alive[i];
                assert(!tail[i - 1]);
            }
        } else {
            law_joined_at_most_once(BlockingBackend::StdThread, None::<H>, tail);
            assert(!alive[0]);
        }
    }
}

} // verus!
