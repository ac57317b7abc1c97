use vstd::prelude::*;
use crate::iface::yield_now::YieldNow;

verus! {

/// An executor that spawns tasks on async-global-executor. The threadpool is global, so the executor is zero sized.
#[derive(Copy, Clone, Default, PartialEq, Eq, Structural)]
pub struct AsyncGlobal;

impl AsyncGlobal {
    /// Create a new wrapper; the executor has no state.
    pub fn new() -> (e: Self)
        ensures
            e == AsyncGlobal,
    {
        AsyncGlobal
    }

    /// The text that the executor's `Debug` writes.
    pub fn description(&self) -> (s: &'static str)
        ensures
            s@ == "AsyncGlobal executor"@,
    {
        "AsyncGlobal executor"
    }
}

impl YieldNow for AsyncGlobal {
}

} // verus!
