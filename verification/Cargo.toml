[package]
name = "cogno"
version = "0.1.0"
edition = "2021"
publish = false

[dependencies]
colored = "*"
regex = "*"
serde = { version = "*", features = ["derive"] }
serde_json = "*"
toml = "*"
