[package]
name = "noir_compute"
version = "0.1.0"
edition = "2021"
publish = false

[dependencies]
flume = "*"
indexmap = "*"
serde = { version = "*", features = ["derive"] }
toml = "*"
clap = { version = "*", features = ["derive"] }
thiserror = "*"
