[package]
name = "filmlog"
version = "0.1.0"
edition = "2021"
publish = false

[dependencies]
rand = "*"
rust-argon2 = "*"
serde = { version = "*", features = ["derive"] }
serde_json = "*"
serde_urlencoded = "*"
