use vstd::prelude::*;
use std::rc::Rc;
use std::sync::Arc;
use core::future::Future;
use core::time::Duration;

verus! {

/// The outcome of polling a future once: what `std::task::Poll` reports,
/// as a plain value.
#[derive(Debug, Clone, Copy, PartialEq, Eq)]
pub enum Readiness<T> {
    /// The future completed with this output.
    Ready(T),
    /// The future is not complete yet; it has arranged to be woken.
    Pending,
}

/// An error value given when a function times out.
///
/// This value is generated when the timeout from [`TimerExt::timeout`]
/// expires before the provided future is ready.
#[derive(Copy, Clone, Debug, PartialEq, Eq, Structural)]
pub struct TimeoutError;

impl TimeoutError {
    /// The error's message, as its `Display` writes it.
    pub fn message(&self) -> (s: &'static str)
        ensures
            s@ == "Timeout expired"@,
    {
        "Timeout expired"
    }
}

/// Represents the fact that an executor has timer functionality.
pub trait Timer {
    /// Future returned by `sleep()`.
    type SleepFuture: Future<Output = ()> + Send + 'static;

    /// Future that resolves after a given duration.
    fn sleep(&self, dur: Duration) -> Self::SleepFuture;
}

/// A timeout returned by [`TimerExt::timeout`]: the future to run, and the
/// timer that bounds it.
#[derive(Debug)]
pub struct Timeout<T, S> {
    future: T,
    sleep_future: S,
}

impl<T, S> Timeout<T, S> {
    /// The future whose output is awaited.
    pub closed spec fn future(self) -> T {
        self.future
    }

    /// The timer future that bounds the wait.
    pub closed spec fn sleep_future(self) -> S {
        self.sleep_future
    }

    /// Pairs a future with the timer that bounds it.
    pub fn new(future: T, sleep_future: S) -> (t: Self)
        ensures
            t.future() == future,
            t.sleep_future() == sleep_future,
    {
        Timeout { future, sleep_future }
    }

    /// The two futures, to be polled by the executor side.
    pub fn into_parts(self) -> (parts: (T, S))
        ensures
            parts == (self.future(), self.sleep_future()),
    {
        (self.future, self.sleep_future)
    }
}

impl<'a, T: Timer> Timer for &'a T {
    type SleepFuture = T::SleepFuture;

    /// The sleep future of the executor pointed to.
    fn sleep(&self, dur: Duration) -> (f: T::SleepFuture)
        ensures
            call_ensures(T::sleep, (&**self, dur), f),
    {
        (**self).sleep(dur)
    }
}

impl<'a, T: Timer> Timer for &'a mut T {
    type SleepFuture = T::SleepFuture;

    /// The sleep future of the executor pointed to.
    fn sleep(&self, dur: Duration) -> (f: T::SleepFuture)
        ensures
            call_ensures(T::sleep, (&*old(*self), dur), f),
    {
        (**self).sleep(dur)
    }
}

impl<T: Timer> Timer for Box<T> {
    type SleepFuture = T::SleepFuture;

    /// The sleep future of the executor pointed to.
    fn sleep(&self, dur: Duration) -> (f: T::SleepFuture)
        ensures
            call_ensures(T::sleep, (&**self, dur), f),
    {
        (**self).sleep(dur)
    }
}

impl<T: Timer> Timer for Rc<T> {
    type SleepFuture = T::SleepFuture;

    /// The sleep future of the executor pointed to.
    fn sleep(&self, dur: Duration) -> (f: T::SleepFuture)
        ensures
            call_ensures(T::sleep, (&**self, dur), f),
    {
        (**self).sleep(dur)
    }
}

impl<T: Timer> Timer for Arc<T> {
    type SleepFuture = T::SleepFuture;

    /// The sleep future of the executor pointed to.
    fn sleep(&self, dur: Duration) -> (f: T::SleepFuture)
        ensures
            call_ensures(T::sleep, (&**self, dur), f),
    {
        (**self).sleep(dur)
    }
}

/// An extension trait on [`Timer`] for timeouts.
pub trait TimerExt: Timer {
    /// Wrap a future with a timeout: the output is the future's output if it
    /// completes before `duration` has passed, and `Err(TimeoutError)`
    /// otherwise.
    fn timeout<F: Future>(&self, duration: Duration, future: F) -> (t: Timeout<F, Self::SleepFuture>)
        default_ensures
            t.future() == future,
            call_ensures(Self::sleep, (self, duration), t.sleep_future()),
    {
        let sleep_future = self.sleep(duration);
        Timeout::new(future, sleep_future)
    }
}

impl<T: Timer> TimerExt for T {
}

/// What one poll of a [`Timeout`] reports, given what the wrapped future and
/// the timer reported.
pub open spec fn timeout_outcome<X>(future: Readiness<X>, sleep: Readiness<()>) -> Readiness<
    Result<X, TimeoutError>,
> {
    match future {
        Readiness::Ready(x) => Readiness::Ready(Ok(x)),
        Readiness::Pending => match sleep {
            Readiness::Ready(_) => Readiness::Ready(Err(TimeoutError)),
            Readiness::Pending => Readiness::Pending,
        },
    }
}

/// One poll of a [`Timeout`]. The wrapped future has been polled and reported
/// `future`; the timer is polled, through `poll_sleep`, only when the future
/// is still pending.
pub fn timeout_poll<X, P: FnOnce() -> Readiness<()>>(future: Readiness<X>, poll_sleep: P) -> (r:
    Readiness<Result<X, TimeoutError>>)
    requires
        poll_sleep.requires(()),
    ensures
        future matches Readiness::Ready(x) ==> r == Readiness::<Result<X, TimeoutError>>::Ready(
            Ok(x),
        ),
        future is Pending ==> exists|s: Readiness<()>|
            #[trigger] poll_sleep.ensures((), s) && r == timeout_outcome(future, s),
{
    match future {
        Readiness::Ready(x) => Readiness::Ready(Ok(x)),
        Readiness::Pending => {
            let s = poll_sleep();
            match s {
                Readiness::Ready(_) => Readiness::Ready(Err(TimeoutError)),
                Readiness::Pending => Readiness::Pending,
            }
        },
    }
}

/// A future that completes is never reported as timed out, whatever the
/// timer reports.
pub proof fn law_completed_future_wins<X>(x: X, sleep: Readiness<()>)
    ensures
        timeout_outcome(Readiness::Ready(x), sleep) == Readiness::<Result<X, TimeoutError>>::Ready(
            Ok(x),
        ),
{
}

/// A timeout reports `Err(TimeoutError)` exactly when the future is still
/// pending and the timer has fired, and stays pending exactly when both are.
pub proof fn law_timeout_error_iff_timer_fired_first<X>(future: Readiness<X>, sleep: Readiness<()>)
    ensures
        timeout_outcome(future, sleep) == Readiness::<Result<X, TimeoutError>>::Ready(
            Err(TimeoutError),
        ) <==> (future is Pending && sleep is Ready),
        timeout_outcome(future, sleep) is Pending <==> (future is Pending && sleep is Pending),
{
}

} // verus!
