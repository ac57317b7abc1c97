use vstd::prelude::*;
use tokio::runtime::Handle as RtHandle;

verus! {

/// A handle to a tokio executor that spawns on its runtime. It only works
/// while the runtime is alive: once the runtime is dropped, spawned futures
/// are dropped without being polled.
#[derive(Debug, Clone)]
pub struct TokioHandle {
    spawner: RtHandle,
}

impl TokioHandle {
    /// The tokio handle that this spawns through.
    pub closed spec fn spawner_spec(self) -> RtHandle {
        self.spawner
    }

    /// A handle that spawns through `spawner`.
    pub fn new(spawner: RtHandle) -> (h: Self)
        ensures
            h.spawner_spec() == spawner,
    {
        TokioHandle { spawner }
    }

    /// The tokio handle that this spawns through.
    pub fn spawner(&self) -> (h: &RtHandle)
        ensures
            *h == self.spawner_spec(),
    {
        &self.spawner
    }
}

} // verus!
