[package]
name = "firmament"
version = "0.1.0"
edition = "2021"
publish = false

[dependencies]
bon = "=3.10.3"
miette = { version = "=7.6.0", features = ["derive"] }
thiserror = "=2.0.21"
tokio = { version = "=1.54.1", features = ["rt", "sync", "macros", "time"] }
tracing = "=0.1.44"
tracing-subscriber = "=0.3.23"
wasmtime = "=47.0.4"
