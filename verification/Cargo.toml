[package]
name = "async_executors"
version = "0.1.0"
edition = "2021"
publish = false

[dependencies]
tokio = { version = "=1.54.1", features = ["rt", "rt-multi-thread", "time"] }
futures = "=0.3.34"
futures-task = "=0.3.34"
futures-util = "=0.3.34"
futures-executor = { version = "=0.3.34", features = ["thread-pool"] }
futures-channel = "=0.3.34"
futures-core = "=0.3.34"
futures-timer = "=3.0.4"
async-std = { version = "=1.13.2", features = ["unstable"] }
async-global-executor = "=2.4.1"
tracing = "=0.1.44"
tracing-futures = "=0.2.5"
blanket = "=0.4.0"
pin-project = "=1.1.13"
oneshot = "=0.2.1"
parking_lot = "=0.12.5"
wasm-bindgen-futures = "=0.4.80"
glommio = "=0.9.0"
