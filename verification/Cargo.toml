[package]
name = "has_nerd_font"
version = "0.1.0"
edition = "2021"
publish = false

[dependencies]
toml = "*"
serde_json = "*"
serde_json5 = "*"
plist = "*"
clap = { version = "*", features = ["derive"] }
