[package]
name = "noirlings"
version = "0.1.0"
edition = "2021"
publish = false

[dependencies]
anyhow = "1"
bn254_blackbox_solver = "*"
console = "0.15"
regex = "1"
serde = { version = "1", features = ["derive"] }
