[package]
name = "engine"
version = "0.1.0"
edition = "2021"
publish = false

[dependencies]
flatbuffers = "=2.1.2"
log = "=0.4.34"
nng = "=1.0.1"
tokio = { version = "=1.54.1", default-features = false, features = ["sync"] }
tracing-appender = "=0.2.5"
tracing-error = "=0.2.1"
tracing-subscriber = { version = "=0.3.23", features = ["env-filter", "json"] }
uuid = "=1.29.0"
