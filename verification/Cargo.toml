[package]
name = "iroh"
version = "0.1.0"
edition = "2021"
publish = false

[dependencies]
anyhow = "=1.0.104"
thiserror = "=1.0.69"
tracing = "=0.1.44"
serde = { version = "=1.0.229", features = ["derive"] }
socket2 = "=0.5.10"
tokio = { version = "=1.54.1", features = ["fs", "io-util", "rt-multi-thread", "time", "net", "sync"] }
quinn = { version = "=0.10.2", default-features = false, features = ["runtime-tokio"] }
futures-lite = "2"
