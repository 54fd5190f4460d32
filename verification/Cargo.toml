[package]
name = "fsevent_stream"
version = "0.1.0"
edition = "2021"
publish = false

[dependencies]
core-foundation = "0.9"
tokio = { version = "1", features = ["sync"] }
tokio-stream = "0.1"
futures = "0.3"
log = "0.4"
once_cell = "1"
