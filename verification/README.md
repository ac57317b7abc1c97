# async_executors

Executor-agnostic building blocks for async Rust: wrappers over tokio,
async-std, async-global-executor, glommio, wasm-bindgen-futures and the
futures executors, with traits to spawn with join handles, to spawn blocking
work, to yield and to sleep.

## Layout

- `src/` is the library, written in Verus. It holds what the wrappers decide,
  with contracts and proofs:
  - `iface/`: the yield future's poll, the timeout's poll, the join handle's
    detach/poll/drop, the blocking handles' polls, and the traits `YieldNow`,
    `Timer`, `TimerExt`, `Sleep`, `TokioIo`;
  - `exec/`: the executors' state. The tokio executors (`TokioCt`, `TokioTp`,
    their builders and errors) are created, adopted from a running runtime and
    shut down here, through small trusted wrappers of tokio's runtime API
    (`exec/tokio_rt.rs`); glommio's executor and yield decision, the glommio
    thread plan, and the timer and yield impls for the futures threadpool and
    the tracing-futures wrappers are here too.
- `app/` is plain Rust around the library: the spawn traits (`SpawnHandle`,
  `LocalSpawnHandle`, `SpawnBlocking` and their extensions), the `Future` and
  `Drop` impls of the handles, and executor types that implement the traits
  of the futures library by calling the executors. Each of them asks the
  library what to do and performs it.
- `tests/` exercise the library.
