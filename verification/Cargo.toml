[package]
name = "loadgen"
version = "0.1.0"
edition = "2021"
publish = false

[dependencies]
anyhow = "1"
crossbeam = "0.8"
flume = "0.11"
futures = "0.3"
futures-util = "0.3"
http = "0.2"
hyper = { version = "0.14", features = ["client", "http1"] }
native-tls = "0.2"
rand = "0.8"
tokio = { version = "1", features = ["rt", "net", "time"] }
tokio-native-tls = "0.3"
trust-dns-resolver = "0.23"
url = "2"
