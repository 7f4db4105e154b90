[package]
name = "vox_golem"
version = "0.1.0"
edition = "2021"
publish = false

[dependencies]
base64 = "0.22"
serde = { version = "1", features = ["derive"] }
serde_json = "1"
tokio = { version = "1", features = ["sync", "time", "rt-multi-thread", "macros", "signal"] }
futures-util = "0.3"
tempfile = "3"
espeak-rs = "*"
ndarray = "*"
ort = { version = "2.0.0-rc.11", default-features = false, features = ["std", "ndarray", "load-dynamic", "cuda"] }
