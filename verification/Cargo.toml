[package]
name = "terafirma"
version = "0.1.0"
edition = "2021"
publish = false

[dependencies]
anyhow = "1"
clap = { version = "4", features = ["derive"] }
tera = "1"
toml = "0.8"
