[package]
name = "locations"
version = "0.1.0"
edition = "2021"
publish = false

[dependencies]
serde_json = "*"
urlencoding = "*"
async-channel = "*"
tokio = { version = "*", features = ["full"] }
hyper = { version = "*", features = ["client", "http1", "http2"] }
hyper-util = { version = "*", features = ["client-legacy", "http1", "http2", "tokio"] }
hyper-tls = "*"
http-body-util = "*"
bytes = "*"
native-tls = "*"
serde = { version = "*", features = ["derive"] }
serde_yaml = "*"
scylla = "*"
thiserror = "*"
tracing = "*"
tracing-appender = "*"
tracing-subscriber = { version = "*", features = ["json"] }
