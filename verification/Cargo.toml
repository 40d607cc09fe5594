[package]
name = "ci_insights"
version = "0.1.0"
edition = "2021"
publish = false

[dependencies]
anyhow = "1"
async-std = { version = "1", features = ["attributes"] }
base64 = "0.22"
clap = { version = "4", features = ["derive"] }
colored = "2"
colorgrad = "0.6"
serde = { version = "1", features = ["derive"] }
surf = { version = "2", default-features = false, features = ["h1-client-rustls"] }
time = { version = "0.3", features = ["serde-well-known"] }
