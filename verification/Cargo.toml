[package]
name = "render-service"
version = "0.1.0"
edition = "2021"
publish = false

[dependencies]
base64 = "0.22"
bytes = "1"
clap = { version = "4", features = ["derive"] }
crossbeam-queue = "0.3"
fantoccini = "0.21"
futures-util = "0.3"
pretty_env_logger = "0.5"
rand = "0.8"
reqwest = "0.12"
serde_json = "1"
tokio = { version = "1", features = ["full"] }
tokio-stream = "0.1"
warp = "0.3"
