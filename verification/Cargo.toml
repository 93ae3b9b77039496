[package]
name = "chunkmesh"
version = "0.1.0"
edition = "2021"
publish = false

[dependencies]
anyhow = "*"
noise = "*"
serde = { version = "*", features = ["derive"] }
serde_json = "*"
