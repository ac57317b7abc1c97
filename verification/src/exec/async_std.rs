use vstd::prelude::*;
use crate::iface::yield_now::YieldNow;

verus! {

/// An executor that spawns tasks on async-std. The threadpool is global, so the executor is zero sized.
#[derive(Copy, Clone, Default, PartialEq, Eq, Structural)]
pub struct AsyncStd;

impl AsyncStd {
    /// Create a new wrapper; the executor has no state.
    pub fn new() -> (e: Self)
        ensures
            e == AsyncStd,
    {
        AsyncStd
    }

    /// The text that the executor's `Debug` writes.
    pub fn description(&self) -> (s: &'static str)
        ensures
            s@ == "AsyncStd executor"@,
    {
        "AsyncStd executor"
    }
}

impl YieldNow for AsyncStd {
}

} // verus!
