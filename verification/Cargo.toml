[package]
name = "mee_node"
version = "0.1.0"
edition = "2021"
publish = false

[dependencies]
base64 = "*"
anyhow = "*"
serde = { version = "*", features = ["derive"] }
serde_json = "*"
axum = "*"
tokio = { version = "*", features = ["rt-multi-thread", "net", "macros"] }
ureq = "*"
