[package]
name = "pcloud"
version = "0.1.0"
edition = "2021"
publish = false

[dependencies]
chrono = "0.4"
serde = { version = "1.0", features = ["derive"] }
serde_repr = "0.1"
reqwest = { version = "0.11", default-features = false, features = ["json", "multipart"] }
tokio = { version = "1", features = ["rt", "rt-multi-thread", "macros", "sync"] }
futures = "0.3"
log = "0.4"
