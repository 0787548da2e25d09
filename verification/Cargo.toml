[package]
name = "v8q"
version = "0.4.0"
edition = "2021"
publish = false

[dependencies]
anyhow = "1"
chrono = "0.4"
clap = { version = "4", features = ["derive"] }
ctrlc = "3"
dirs = "5"
serde = { version = "1", features = ["derive"] }
serde_json = "1"
shell-words = "1"
toml = "0.8"
