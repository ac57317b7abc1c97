//! The traits and handle types that the executors expose.

pub mod blocking_handle;
pub mod blocking_join_handle;
pub mod join_handle;
pub mod sleep;
pub mod timer;
pub mod tokio_io;
pub mod yield_now;
