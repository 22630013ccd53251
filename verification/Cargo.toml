[package]
name = "notabene"
version = "0.1.0"
edition = "2021"
publish = false

[dependencies]
clap = "*"
owo-colors = { version = "*", features = ["supports-colors"] }
pulldown-cmark = { version = "*", default-features = false }
serde = { version = "*", features = ["derive"] }
serde_json = "*"
time = { version = "*", features = ["parsing"] }
toml = "*"
version-compare = "*"
