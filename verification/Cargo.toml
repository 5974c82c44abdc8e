[package]
name = "pwr_cap_rs"
version = "0.1.0"
edition = "2021"
publish = false

[dependencies]
libryzenadj = "*"
serde = { version = "*", features = ["derive"] }
serde_json = "*"
