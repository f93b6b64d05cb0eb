[package]
name = "error_hook"
version = "0.1.0"
edition = "2021"
publish = false

[dependencies]
anyhow = "1"
thiserror = "1"
tokio = { version = "1", features = ["rt-multi-thread", "macros"] }
tracing = "0.1"
tracing-subscriber = "0.3"
syn = { version = "2", features = ["full"] }
quote = "1"
proc-macro2 = "1"
