//! The executor implementations.

pub mod async_global;
pub mod async_std;
pub mod bindgen;
pub mod glommio_ct;
pub mod glommio_tp;
pub mod glommio_yield;
pub mod instrumented;
pub mod threadpool;
pub mod tokio_context;
pub mod tokio_ct;
pub mod tokio_ct_builder;
pub mod tokio_handle;
pub mod tokio_rt;
pub mod tokio_tp;
pub mod tokio_tp_builder;
