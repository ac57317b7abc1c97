//! Yielding on the single-threaded glommio executor. It stands apart from
//! the executor's module, where glommio's answers are made, so that the
//! future it gives can only rest on an answer that glommio gave.

use vstd::prelude::*;
use crate::exec::glommio_ct::{GlommioCt, preemption_wanted};
use crate::iface::yield_now::{YieldNow, YieldNowFut, yield_for_answer};

verus! {

impl YieldNow for GlommioCt {
    /// Yields only when glommio wants the current task to yield: otherwise
    /// the future is complete at once, also when no glommio executor runs on
    /// the thread. The future carries glommio's answer.
    fn yield_now(&self) -> (fut: YieldNowFut)
        ensures
            fut.answer() is Some,
            fut.done() == !fut.answer()->0.wanted(),
    {
        yield_for_answer(preemption_wanted())
    }
}

} // verus!
