[package]
name = "tux_rs"
version = "0.1.0"
edition = "2021"
publish = false

[dependencies]
anyhow = "1"
nix = { version = "0.29", features = ["ioctl"] }
sd-notify = "0.4"
serde = { version = "1", features = ["derive"] }
serde_json = "1"
thiserror = "2"
tokio = { version = "1", features = ["full"] }
toml = "0.8"
tracing = "0.1"
tracing-subscriber = { version = "0.3", features = ["env-filter"] }
zbus = "5"

[dev-dependencies]
tempfile = "3"
