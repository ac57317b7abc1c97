//! The futures threadpool executor: yielding and timers.

use vstd::prelude::*;
use core::time::Duration;
use futures_executor::ThreadPool;
use futures_timer::Delay;
use crate::iface::timer::Timer;
use crate::iface::yield_now::YieldNow;

verus! {

#[verifier::external_type_specification]
#[verifier::external_body]
pub struct ExThreadPool(ThreadPool);

#[verifier::external_type_specification]
#[verifier::external_body]
pub struct ExDelay(Delay);

/// `futures_timer::Delay::new`: a future that completes once `dur` has
/// passed. Nothing is stated of it: when it completes is a matter of time.
#[verifier::external_body]
pub(crate) fn delay_for(dur: Duration) -> Delay {
    Delay::new(dur)
}

impl YieldNow for ThreadPool {
}

impl Timer for ThreadPool {
    type SleepFuture = Delay;

    fn sleep(&self, dur: Duration) -> Delay {
        delay_for(dur)
    }
}

} // verus!
