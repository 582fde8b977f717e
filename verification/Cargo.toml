[package]
name = "keytrust"
version = "0.1.0"
edition = "2021"
publish = false

[dependencies]
base64 = "0.13"
osshkeys = "*"
serde = { version = "1", features = ["derive"] }
structopt = "0.3"
toml = "0.5"
