use vstd::prelude::*;

verus! {

/// Trait indicating that tokio IO can be used with the executor that
/// implements it: a tokio reactor is running, so that the network types of
/// tokio work.
pub trait TokioIo {
}

} // verus!
