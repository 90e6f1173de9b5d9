[package]
name = "rusty"
version = "0.1.0"
edition = "2021"
publish = false
rust-version = "1.95"

[dependencies]
serde = { version = "=1.0.229", features = ["derive"] }
serde_json = "=1.0.154"
jsonschema = { version = "=0.60.2", default-features = false }
uuid = { version = "=1.29.0", features = ["v4", "serde"] }
chrono = { version = "=0.4.45", default-features = false, features = ["clock", "std", "serde"] }
toml = "=1.1.8"
thiserror = "=2.0.21"
anyhow = "=1.0.104"
clap = { version = "=4.6.7", features = ["derive"] }
tokio = { version = "=1.54.1", features = ["full"] }
tokio-util = "=0.7.20"
wasmtime = "=43.0.2"
wasmtime-wasi = "=43.0.2"
owo-colors = { version = "=4.4.0", features = ["supports-colors"] }
home = "=0.5.12"
tracing = "=0.1.44"
tracing-subscriber = { version = "=0.3.23", features = ["env-filter"] }
