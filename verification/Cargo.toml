[package]
name = "dfx"
version = "0.1.0"
edition = "2021"
publish = false

[dependencies]
anyhow = "1"
clap = { version = "3", features = ["derive"] }
hex = "0.4"
ic-agent = "0.5"
ic-types = "0.1"
ic-utils = "0.3"
num-traits = "0.2"
pem = "0.8"
ring = "0.16"
serde = { version = "1", features = ["derive"] }
serde_json = "1"
slog = "2"
thiserror = "1"
tokio = { version = "1", features = ["rt"] }
