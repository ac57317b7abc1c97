//! Executor-agnostic building blocks: the decisions that the executor wrappers
//! make (yielding, timeouts, join handles, blocking handles, tokio runtime
//! ownership), with their contracts. The executors' own calls stand behind
//! small functions whose contracts say what the executors' documentation
//! promises.

pub mod exec;
pub mod iface;

pub use exec::async_global::AsyncGlobal;
pub use exec::async_std::AsyncStd;
pub use exec::bindgen::Bindgen;
pub use exec::glommio_ct::GlommioCt;
pub use exec::glommio_tp::{GlommioTpBuilder, ThreadSlot};
pub use exec::tokio_context::TokioContext;
pub use exec::tokio_handle::TokioHandle;
pub use exec::tokio_ct::{CtSpawner, TokioCt, TokioCtErr};
pub use exec::tokio_ct_builder::TokioCtBuilder;
pub use exec::tokio_rt::{Flavor, ShutdownDone, ShutdownPlan};
pub use exec::tokio_tp::{TokioTp, TokioTpErr, TpSpawner};
pub use exec::tokio_tp_builder::TokioTpBuilder;
pub use iface::blocking_handle::{BlockingBackend, BlockingHandle, BlockingStep};
pub use iface::blocking_join_handle::{BlockingJoinBackend, BlockingJoinHandle, DoneSignal, PthreadStep};
pub use iface::join_handle::{DetachStep, JoinBackend, JoinFault, JoinHandle, ReleaseStep};
pub use iface::sleep::Sleep;
pub use iface::timer::{Readiness, Timeout, TimeoutError, Timer, TimerExt, timeout_poll};
pub use iface::tokio_io::TokioIo;
pub use iface::yield_now::{YieldNow, YieldNowFut, YieldPoll, yield_for_preemption};
