[package]
name = "control_plane"
version = "0.1.0"
edition = "2021"
publish = false

[dependencies]
serde_json = "1"
tokio = { version = "1", features = ["full"] }
hyper = { version = "0.14", features = ["full"] }
reqwest = { version = "0.11", default-features = false, features = ["stream"] }
futures-util = "0.3"
rmcp = { version = "0.2", features = ["client", "transport-child-process"] }
log = "0.4"
once_cell = "1"
