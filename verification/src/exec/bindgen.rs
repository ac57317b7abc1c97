use vstd::prelude::*;

verus! {

/// An executor that spawns on the wasm-bindgen-futures executor, which is global, so the executor is zero sized.
#[derive(Copy, Clone, Default, PartialEq, Eq, Structural)]
pub struct Bindgen;

impl Bindgen {
    /// Create a new wrapper; the executor has no state.
    pub fn new() -> (e: Self)
        ensures
            e == Bindgen,
    {
        Bindgen
    }

    /// The text that the executor's `Debug` writes.
    pub fn description(&self) -> (s: &'static str)
        ensures
            s@ == "WASM Bindgen executor"@,
    {
        "WASM Bindgen executor"
    }
}

} // verus!
