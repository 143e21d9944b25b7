[package]
name = "segmentation"
version = "0.1.0"
edition = "2021"
publish = false

[dependencies]
chrono = "=0.4.45"
lopdf = { version = "=0.45.0", default-features = false }
reqwest = { version = "=0.13.5", default-features = false, features = ["blocking"] }
serde = { version = "=1.0.229", features = ["derive"] }
serde_json = "=1.0.151"
tempdir = "=0.3.7"
tempfile = "=3.27.0"
uuid = { version = "=1.27.0", features = ["v4"] }
