[package]
name = "cache"
version = "0.1.0"
edition = "2021"
publish = false

[dependencies]
flexbuffers = "*"
fs2 = "0.4"
hex = "0.4"
once_cell = "1"
serde = { version = "1", features = ["derive"] }
sha2 = "0.10"
thiserror = "1"
toml = "*"
