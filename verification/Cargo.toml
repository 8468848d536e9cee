[package]
name = "gem"
version = "0.1.0"
edition = "2021"
publish = false

[dependencies]
url = "2"
crossterm = "*"
native-tls = "0.2"
serde = { version = "1", features = ["derive"] }
toml = "*"
