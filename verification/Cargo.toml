[package]
name = "exchange"
version = "0.1.0"
edition = "2021"
publish = false

[dependencies]
bytes = "1"
fastwebsockets = { version = "*", features = ["upgrade"] }
http-body-util = "0.1"
hyper = "1"
hyper-util = { version = "0.1", features = ["tokio"] }
iced_futures = "*"
log = "0.4"
reqwest = { version = "0.12", default-features = false }
serde = { version = "1", features = ["derive"] }
serde_json = "1"
socket2 = "*"
sonic-rs = "*"
tokio = { version = "1", features = ["rt", "net", "time", "sync", "macros"] }
tokio-rustls = "0.24"
webpki-roots = "0.23"
