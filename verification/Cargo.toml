[package]
name = "engula"
version = "0.1.0"
edition = "2021"
publish = false

[dependencies]
serde_json = "1"
thiserror = "1"
tonic = { version = "0.6", default-features = false }
