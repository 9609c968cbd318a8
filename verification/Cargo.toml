[package]
name = "resilissh"
version = "1.0.0"
edition = "2021"
publish = false

[dependencies]
dirs = "*"
log = "0.4"
serde = { version = "1", features = ["derive"] }
serde_json = "1"
sha2 = "*"
ssh2 = { version = "0.9", features = ["vendored-openssl"] }
