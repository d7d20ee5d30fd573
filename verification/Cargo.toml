[package]
name = "crosspub"
version = "0.1.0"
edition = "2021"
publish = false

[dependencies]
chrono = "0.4"
clap = { version = "*", features = ["derive"] }
serde = { version = "1", features = ["derive"] }
serde_json = "1"
tinytemplate = "1"
toml = "*"
xdg = "*"
