[package]
name = "rsa_roundtrip"
version = "0.1.0"
edition = "2021"
publish = false

[dependencies]
clap = { version = "4", features = ["derive"] }
postcard = { version = "1", features = ["alloc"] }
rand = "0.8"
rsa = { version = "0.9", features = ["serde"] }
