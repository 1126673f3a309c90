[package]
name = "kaws"
version = "0.1.0"
edition = "2021"
publish = false

[dependencies]
rusoto_core = { version = "0.48", default-features = false, features = ["rustls"] }
rusoto_kms = { version = "0.48", default-features = false, features = ["rustls"] }
tokio = { version = "1", features = ["rt", "net", "time"] }
tempdir = "0.3"

[dev-dependencies]
rustc-serialize = "0.3"
serde_json = "1"
