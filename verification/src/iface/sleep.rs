use vstd::prelude::*;
use core::future::Future;
use core::time::Duration;

verus! {

/// Represents the fact that an executor has timer functionality, with a
/// `Send` sleep future on every target.
pub trait Sleep {
    /// Future returned by `sleep()`.
    type SleepFuture: Future<Output = ()> + Send + 'static;

    /// Future that resolves after a given duration.
    fn sleep(&self, dur: Duration) -> Self::SleepFuture;
}

} // verus!
