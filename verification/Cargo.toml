[package]
name = "executor_benchmarks"
version = "0.1.0"
edition = "2021"
publish = false

[dependencies]
futures = { version = "0.3", features = ["thread-pool"] }
async_executors = "*"
async-std = "1"
tokio = { version = "1", features = ["rt", "rt-multi-thread"] }
log = "0.4"
