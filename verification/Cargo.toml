[package]
name = "accretion"
version = "0.1.0"
edition = "2021"
publish = false

[dependencies]
ttf-parser = "*"
serde = { version = "1", features = ["derive"] }
toml = "*"
rand = "0.8"
