[package]
name = "tunes4r"
version = "0.1.0"
edition = "2021"
publish = false

[dependencies]
serde = { version = "*", features = ["derive"] }
tokio = { version = "*", features = ["rt", "rt-multi-thread", "time", "sync", "macros"] }
tracing-subscriber = "*"
