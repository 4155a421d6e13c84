[package]
name = "reqwest_file"
version = "0.1.0"
edition = "2021"
publish = false

[dependencies]
bytes = "1"
futures-util = "0.3"
reqwest = { version = "0.11", default-features = false, features = ["stream"] }
tokio = { version = "1", features = ["io-util"] }
tokio-util = { version = "0.7", features = ["io"] }

[dev-dependencies]
http = "0.2"
