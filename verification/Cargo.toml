[package]
name = "cirrus_executor"
version = "0.1.0"
edition = "2021"
publish = false

[dependencies]
parity-scale-codec = { version = "3", features = ["derive"] }
sp-core = "*"
sp-runtime = "*"
crossbeam = "0.8"
futures = "0.3"
tokio = { version = "1", features = ["time"] }
tracing = "0.1"
thiserror = "1"
