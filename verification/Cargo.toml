[package]
name = "bridge_cli"
version = "0.1.0"
edition = "2021"
publish = false

[dependencies]
tmelcrypt = "*"
anyhow = "*"
clap = { version = "*", features = ["derive"] }
serde = { version = "*", features = ["derive"] }
serde_yaml = "*"
