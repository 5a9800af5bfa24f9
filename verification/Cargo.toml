[package]
name = "spaceapi_matrix_bot"
version = "0.1.0"
edition = "2021"
publish = false

[dependencies]
clap = { version = "4", features = ["derive", "env"] }
matrix-sdk = { version = "=0.6.2", features = ["markdown"] }
mqtt-channel-client = "=0.6.0"
reqwest = { version = "0.11", features = ["json"] }
serde_json = "=1.0.154"
spaceapi = "=0.9.0"
thiserror = "1"
tokio = { version = "1", features = ["macros", "rt-multi-thread", "signal", "sync", "time"] }
tracing = "0.1"
tracing-subscriber = "0.3"
