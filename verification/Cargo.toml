[package]
name = "precious"
version = "0.1.0"
edition = "2021"
publish = false

[dependencies]
rust_decimal = "1"
clap = { version = "4", features = ["derive"] }
comfy-table = "7"
directories = "5"
hcl-rs = "0.18"
indexmap = { version = "2", features = ["serde"] }
miette = "7"
reqwest = { version = "0.12", default-features = false, features = ["rustls-tls"] }
serde = { version = "1", features = ["derive"] }
serde_json = "1"
serde_yaml = "0.9"
smol_str = { version = "0.2", features = ["serde"] }
thiserror = "1"
tokio = { version = "1", features = ["rt-multi-thread"] }
tracing = "0.1"
tracing-subscriber = { version = "0.3", features = ["env-filter"] }
