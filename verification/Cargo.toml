[package]
name = "cc_pio"
version = "0.1.0"
edition = "2021"
publish = false

[dependencies]
cc = "1"
serde_json = { version = "1", features = ["preserve_order"] }
