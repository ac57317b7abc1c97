//! Executors wrapped by tracing-futures keep the abilities of the executor
//! they wrap: the timer futures are instrumented like the executor.

use vstd::prelude::*;
use core::time::Duration;
use tracing::Span;
use tracing_futures::{Instrument, Instrumented, WithDispatch};
use crate::iface::timer::Timer;
use crate::iface::tokio_io::TokioIo;
use crate::iface::yield_now::YieldNow;

verus! {

#[verifier::external_type_specification]
#[verifier::external_body]
#[verifier::reject_recursive_types(T)]
pub struct ExInstrumented<T>(Instrumented<T>);

#[verifier::external_type_specification]
#[verifier::external_body]
#[verifier::reject_recursive_types(T)]
pub struct ExWithDispatch<T>(WithDispatch<T>);

#[verifier::external_type_specification]
#[verifier::external_body]
pub struct ExSpan(Span);

/// `Clone` of `tracing::Span`: another handle to the same span. Nothing is
/// stated of it, since a span's identity is not visible here.
pub assume_specification[ <Span as Clone>::clone ](span: &Span) -> Span;

/// `tracing_futures::Instrumented::inner`: the wrapped executor. Nothing is
/// stated of it, since the wrapper's contents are not visible here.
#[verifier::external_body]
fn instrumented_inner<T>(w: &Instrumented<T>) -> &T {
    w.inner()
}

/// `tracing_futures::Instrumented::span`: the span of an instrumented
/// executor. Nothing is stated of it.
#[verifier::external_body]
fn instrumented_span<T>(w: &Instrumented<T>) -> &Span {
    w.span()
}

/// `tracing_futures::Instrument::instrument`: the future, entered into `span`
/// whenever it is polled. Nothing is stated of it, since the wrapper's contents
/// are not visible here.
#[verifier::external_body]
fn instrument_in<F>(fut: F, span: Span) -> Instrumented<F> {
    fut.instrument(span)
}

/// `tracing_futures::WithDispatch::inner`: the wrapped executor. Nothing is
/// stated of it.
#[verifier::external_body]
fn with_dispatch_inner<T>(w: &WithDispatch<T>) -> &T {
    w.inner()
}

/// `tracing_futures::WithDispatch::with_dispatch`: the future, run with the
/// subscriber of the executor. Nothing is stated of it.
#[verifier::external_body]
fn with_dispatch_like<T, F>(like: &WithDispatch<T>, fut: F) -> WithDispatch<F> {
    like.with_dispatch(fut)
}

impl<T: Timer> Timer for Instrumented<T> {
    type SleepFuture = Instrumented<T::SleepFuture>;

    fn sleep(&self, dur: Duration) -> Instrumented<T::SleepFuture> {
        let fut = instrumented_inner(self).sleep(dur);
        instrument_in(fut, instrumented_span(self).clone())
    }
}

impl<T: Timer> Timer for WithDispatch<T> {
    type SleepFuture = WithDispatch<T::SleepFuture>;

    fn sleep(&self, dur: Duration) -> WithDispatch<T::SleepFuture> {
        let fut = with_dispatch_inner(self).sleep(dur);
        with_dispatch_like(self, fut)
    }
}

impl<T: TokioIo> TokioIo for Instrumented<T> {
}

impl<T: TokioIo> TokioIo for WithDispatch<T> {
}

impl<T: YieldNow> YieldNow for Instrumented<T> {
}

impl<T: YieldNow> YieldNow for WithDispatch<T> {
}

} // verus!
