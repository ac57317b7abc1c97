use vstd::prelude::*;

verus! {

/// An executor that spawns on the tokio runtime entered by the caller, such as
/// the one that `tokio::main` sets up.
#[derive(Debug, Clone, Copy, Default, PartialEq, Eq, Structural)]
pub struct TokioContext {}

impl TokioContext {
    /// Constructs the executor; it has no state.
    pub fn new() -> (e: Self)
        ensures
            e == (TokioContext {}),
    {
        TokioContext {}
    }
}

} // verus!
