[package]
name = "easyfix_session"
version = "0.1.0"
edition = "2021"
publish = false

[dependencies]
futures-util = "=0.3.34"
once_cell = "=1.21.4"
tokio = { version = "=1.54.1", features = ["io-util", "macros", "net", "rt", "sync", "test-util", "time"] }
tokio-stream = { version = "=0.1.19", features = ["time"] }
tracing = "=0.1.44"
