//! A builder whose runtime is multithreaded by construction.

use vstd::prelude::*;
use tokio::runtime::{Builder as RtBuilder, Runtime as TokioRuntime};
use crate::exec::tokio_tp::{TpSpawner, TokioTp};
use crate::exec::tokio_rt::{Flavor, builder_flavor, flavor_of_handle, handle_of_runtime, build_runtime, handle_flavor, other_io_error, runtime_handle, shutdown_runtime_background, threadpool_accepts, new_multi_thread_builder};

verus! {

/// Builder to create a [`TokioTp`] executor. The tokio builder it holds was
/// made multithreaded, which tokio does not record on its `Runtime` type.
/// It gives access to the tokio builder for the other configuration options.
#[derive(Debug)]
pub struct TokioTpBuilder {
    builder: RtBuilder,
}

impl TokioTpBuilder {
    /// The tokio builder.
    pub closed spec fn builder(self) -> RtBuilder {
        self.builder
    }

    /// A builder over a fresh multithreaded tokio builder.
    pub fn new() -> (b: Self)
        ensures
            builder_flavor(b.builder()) == Flavor::MultiThread,
    {
        TokioTpBuilder { builder: new_multi_thread_builder() }
    }

    /// The tokio builder, to configure it. If it is replaced by a builder of
    /// another scheduler, [`Self::build`] fails rather than give an executor
    /// over a runtime that is not multithreaded.
    pub fn tokio_builder(&mut self) -> (b: &mut RtBuilder)
        ensures
            *b == old(self).builder(),
            final(self).builder() == *final(b),
    {
        &mut self.builder
    }

    /// The executor over what the tokio builder returned: the runtime, or the
    /// builder's error, handed on.
    pub fn from_built(built: std::io::Result<TokioRuntime>) -> (r: Result<TokioTp, std::io::Error>)
        requires
            built matches Ok(rt) ==> threadpool_accepts(flavor_of_handle(handle_of_runtime(rt))),
        ensures
            built matches Ok(rt) ==> r matches Ok(ex) && ex.spawner_spec() matches TpSpawner::Runtime(
                a,
            ) && *a == rt,
            built matches Err(e) ==> r == Err::<TokioTp, std::io::Error>(e),
    {
        match built {
            Ok(rt) => Ok(TokioTp::from_owned_runtime(rt)),
            Err(e) => Err(e),
        }
    }

    /// Create the executor: a runtime built by the tokio builder. The error is
    /// the tokio builder's. A tokio builder put in place of the one this
    /// builder made, through [`Self::tokio_builder`], that builds a runtime of
    /// another scheduler gives an error of kind `Other`, and its runtime is
    /// shut down: the executor's type guarantees a multithreaded runtime.
    pub fn build(&mut self) -> (r: Result<TokioTp, std::io::Error>)
        ensures
            builder_flavor(final(self).builder()) == builder_flavor(old(self).builder()),
            r matches Ok(ex) ==> ex.spawner_spec() matches TpSpawner::Runtime(a) && flavor_of_handle(
                handle_of_runtime(*a),
            ) == builder_flavor(old(self).builder()),
            !threadpool_accepts(builder_flavor(old(self).builder())) ==> r is Err,
    {
        match build_runtime(&mut self.builder) {
            Err(e) => Self::from_built(Err(e)),
            Ok(rt) => {
                let flavor = handle_flavor(runtime_handle(&rt));
                match flavor {
                    Flavor::MultiThread => Self::from_built(Ok(rt)),
                    _ => {
                        let _ = shutdown_runtime_background(rt);
                        Err(other_io_error("the tokio builder does not build a multithreaded runtime"))
                    },
                }
            },
        }
    }
}

impl Default for TokioTpBuilder {
    fn default() -> (b: Self)
        ensures
            builder_flavor(b.builder()) == Flavor::MultiThread,
    {
        Self::new()
    }
}

} // verus!
