[package]
name = "alveus_idle"
version = "0.1.0"
edition = "2021"
publish = false

[dependencies]
rand = "0.9"
ron = "0.10"
serde = { version = "1", features = ["derive"] }
strum = { version = "0.27", features = ["derive"] }
phf_shared = "0.11"
