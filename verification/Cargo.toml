[package]
name = "git2kit"
version = "0.1.0"
edition = "2021"
publish = false

[dependencies]
git2 = { version = "*", default-features = false }
log = "0.4"
serde = { version = "1", features = ["derive"] }

[dev-dependencies]
temp-dir = "*"
