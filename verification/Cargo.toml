[package]
name = "upload_core"
version = "0.1.0"
edition = "2021"
publish = false

[dependencies]
serde_json = "1"
tokio = { version = "1", features = ["rt", "rt-multi-thread", "fs", "macros", "io-util"] }
tokio-util = { version = "0.7", features = ["codec"] }
futures-util = "0.3"
futures-core = "0.3"
bytes = "1"
reqwest = { version = "0.12", default-features = false, features = ["json", "stream"] }

[dev-dependencies]
