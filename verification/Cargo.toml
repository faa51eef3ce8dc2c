[package]
name = "tmux-client"
version = "0.1.0"
edition = "2021"
publish = false

[dependencies]
regex = "1"
thiserror = "2"
tokio = { version = "1", features = ["process", "io-util", "time", "sync", "rt", "macros"] }
tracing = "0.1"
tempfile = "3"
