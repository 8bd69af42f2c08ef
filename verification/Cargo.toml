[package]
name = "gitmeta"
version = "0.1.0"
edition = "2021"
publish = false

[dependencies]
git2 = { version = "*", default-features = false }
chrono = "0.4"
rand = "0.8"

[dev-dependencies]
tempfile = "*"
