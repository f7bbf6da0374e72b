[package]
name = "process_analyzer"
version = "0.1.0"
edition = "2021"
publish = false

[dependencies]
bytes = "1"
rustc-hash = "2"
arrow = { version = "*", default-features = false }
arrow-array = "*"
arrow-schema = "*"
serde = { version = "1", features = ["derive"] }
thiserror = "2"
tokio = { version = "1", features = ["fs", "io-util", "sync", "rt", "rt-multi-thread", "macros"] }
tokio-stream = "*"
tokio-util = "*"
futures = "*"
tracing = "*"
libc = "*"
bitflags = "2"
