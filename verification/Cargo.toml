[package]
name = "openlinear_desktop"
version = "0.1.0"
edition = "2021"
publish = false

[dependencies]
url = "2"
reqwest = { version = "0.12", default-features = false }
serde = { version = "1", features = ["derive"] }
which = "*"
keyring = "3"

[dev-dependencies]
serde_json = "1"
