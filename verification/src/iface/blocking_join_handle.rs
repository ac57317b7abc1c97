use vstd::prelude::*;

verus! {

/// What the completion channel of a thread-backed blocking task reports when
/// tried without waiting.
#[derive(Debug, Clone, Copy, PartialEq, Eq, Structural)]
pub enum DoneSignal {
    /// The thread sent its completion signal.
    Finished,
    /// No signal yet: the thread still works.
    NotYet,
    /// The sender was dropped without a signal: the thread panicked.
    SenderDropped,
}

/// Which executor ran the task of a [`BlockingJoinHandle`].
#[derive(Debug, Clone, Copy, PartialEq, Eq, Structural)]
pub enum BlockingJoinBackend {
    /// A `tokio::task::JoinHandle`.
    Tokio,
    /// A `std::thread::JoinHandle` with a completion channel.
    Pthread,
}

/// What one poll of a [`BlockingJoinHandle`] asks of its owner.
#[derive(Debug)]
pub enum PthreadStep<H> {
    /// Poll the native handle.
    PollNative,
    /// Report pending.
    Pend,
    /// Join the thread through this handle; its output is the result (a
    /// panicked thread is a panic of the poll).
    Join(H),
    /// The thread was already joined: a usage error.
    AlreadyJoined,
}

/// One poll: the handle's native part afterwards, and the step.
pub open spec fn pthread_step<H>(backend: BlockingJoinBackend, native: Option<H>, signal: DoneSignal) -> (
    Option<H>,
    PthreadStep<H>,
) {
    if backend == BlockingJoinBackend::Tokio {
        (native, PthreadStep::PollNative)
    } else if signal == DoneSignal::NotYet {
        (native, PthreadStep::Pend)
    } else {
        match native {
            Some(h) => (None, PthreadStep::Join(h)),
            None => (None, PthreadStep::AlreadyJoined),
        }
    }
}

/// A framework agnostic handle to a blocking task that cannot be cancelled.
#[derive(Debug)]
pub struct BlockingJoinHandle<H> {
    backend: BlockingJoinBackend,
    native: Option<H>,
}

impl<H> BlockingJoinHandle<H> {
    /// The executor that runs the task.
    pub closed spec fn backend(self) -> BlockingJoinBackend {
        self.backend
    }

    /// The native handle, while this handle holds it.
    pub closed spec fn native(self) -> Option<H> {
        self.native
    }

    /// Make a wrapper around a `tokio::task::JoinHandle`.
    pub fn tokio(handle: H) -> (b: Self)
        ensures
            b.backend() == BlockingJoinBackend::Tokio,
            b.native() == Some(handle),
    {
        BlockingJoinHandle { backend: BlockingJoinBackend::Tokio, native: Some(handle) }
    }

    /// Make a wrapper around a `std::thread::JoinHandle`; the owner keeps the
    /// receiver of its completion channel.
    pub fn pthread(handle: H) -> (b: Self)
        ensures
            b.backend() == BlockingJoinBackend::Pthread,
            b.native() == Some(handle),
    {
        BlockingJoinHandle { backend: BlockingJoinBackend::Pthread, native: Some(handle) }
    }

    /// One poll, given what the completion channel reported.
    pub fn poll_step(&mut self, signal: DoneSignal) -> (step: PthreadStep<H>)
        ensures
            (final(self).native(), step) == pthread_step(old(self).backend(), old(self).native(), signal),
            final(self).backend() == old(self).backend(),
    {
        match self.backend {
            BlockingJoinBackend::Tokio => PthreadStep::PollNative,
            BlockingJoinBackend::Pthread => match signal {
                DoneSignal::NotYet => PthreadStep::Pend,
                _ => match self.native.take() {
                    Some(h) => PthreadStep::Join(h),
                    None => PthreadStep::AlreadyJoined,
                },
            },
        }
    }

    /// The native handle to poll, for the tokio backend.
    pub fn native_mut(&mut self) -> (r: Option<&mut H>)
        ensures
            r is Some <==> old(self).native() is Some,
            r matches Some(h) ==> *h == old(self).native()->0,
            final(self).backend() == old(self).backend(),
            r matches Some(h) ==> final(self).native() == Some(*final(h)),
            r is None ==> final(self).native() == old(self).native(),
    {
        self.native.as_mut()
    }

    /// What the owner makes of the result that a tokio task's handle yielded:
    /// the task's output, or, when the task was cancelled or panicked, tokio's
    /// error together with the message that the owner fails with.
    pub fn tokio_outcome<T, E>(&self, native: Result<T, E>) -> (r: Result<T, (&'static str, E)>)
        ensures
            native matches Ok(t) ==> r == Ok::<T, (&'static str, E)>(t),
            native matches Err(e) ==> r matches Err((m, e2)) && e2 == e && m@
                == "Task has been canceled. Are you dropping the executor to early? Error: "@,
    {
        match native {
            Ok(t) => Ok(t),
            Err(e) => {
                Err(("Task has been canceled. Are you dropping the executor to early? Error: ", e))
            },
        }
    }
}

/// A thread is joined as soon as it signalled completion or dropped its
/// sender, and never before.
pub proof fn law_join_iff_signalled<H>(native: H, signal: DoneSignal)
    ensures
        (pthread_step(BlockingJoinBackend::Pthread, Some(native), signal).1 == PthreadStep::Join(
            native,
        )) <==> signal != DoneSignal::NotYet,
{
}

/// A thread is joined at most once: after a join, any poll that would join
/// again reports that it was already joined.
pub proof fn law_pthread_joined_once<H>(native: H, first: DoneSignal, second: DoneSignal)
    requires
        first != DoneSignal::NotYet,
        second != DoneSignal::NotYet,
    ensures
        pthread_step(
            BlockingJoinBackend::Pthread,
            pthread_step(BlockingJoinBackend::Pthread, Some(native), first).0,
            second,
        ).1 == PthreadStep::<H>::AlreadyJoined,
{
}

/// How many of the polls, each given the channel's report, join the thread.
pub open spec fn pthread_joins_over<H>(backend: BlockingJoinBackend, native: Option<H>, signals: Seq<DoneSignal>) -> nat
    decreases signals.len(),
{
    if signals.len() == 0 {
        0
    } else {
        let (rest, step) = pthread_step(backend, native, signals[0]);
        (if step is Join {
            1nat
        } else {
            0nat
        }) + pthread_joins_over(backend, rest, signals.drop_first())
    }
}

/// However the polls go, the thread is joined at most once, and exactly when
/// some poll finds that it signalled or dropped its sender.
pub proof fn law_pthread_joined_iff_signal_seen<H>(native: Option<H>, signals: Seq<DoneSignal>)
    ensures
        pthread_joins_over(BlockingJoinBackend::Pthread, native, signals) <= 1,
        native is None ==> pthread_joins_over(BlockingJoinBackend::Pthread, native, signals) == 0,
        native is Some ==> (pthread_joins_over(BlockingJoinBackend::Pthread, native, signals) == 1
            <==> exists|i: int| 0 <= i < signals.len() && #[trigger] signals[i] != DoneSignal::NotYet),
    decreases signals.len(),
{
    if signals.len() > 0 {
        let tail = signals.drop_first();
        let (rest, _) = pthread_step(BlockingJoinBackend::Pthread, native, signals[0]);
        law_pthread_joined_iff_signal_seen(rest, tail);
        if signals[0] == DoneSignal::NotYet {
            if exists|i: int| 0 <= i < tail.len() && #[trigger] tail[i] != DoneSignal::NotYet {
                let i = choose|i: int| 0 <= i < tail.len() && #[trigger] tail[i] != DoneSignal::NotYet;
                assert(signals[i + 1] != DoneSignal::NotYet);
            }
            if exists|i: int| 0 <= i < signals.len() && #[trigger] signals[i] != DoneSignal::NotYet {
                let i = choose|i: int| 0 <= i < signals.len() && #[trigger] signals[i] != DoneSignal::NotYet;
                assert(tail[i - 1] != DoneSignal::NotYet);
            }
        } else {
            assert(signals[0] != DoneSignal::NotYet);
        }
    }
}

} // verus!
