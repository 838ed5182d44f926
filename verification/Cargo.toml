[package]
name = "serde_gelf"
version = "0.1.0"
edition = "2021"
publish = false

[dependencies]
hostname = "0.1"
log = "0.4"
serde = { version = "1", features = ["derive"] }
serde_derive = "1"
serde_json = "1"
serde-value = "0.7"
