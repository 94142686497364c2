[package]
name = "stream_downloader"
version = "0.1.0"
edition = "2021"
publish = false

[dependencies]
crossbeam = "0.8"
env_logger = "0.11"
figment = { version = "0.10", features = ["toml", "env"] }
jiff = "0.2"
log = "0.4"
nix = { version = "0.30", features = ["signal"] }
regex = "1"
reqwest = { version = "0.12", features = ["json"] }
serde = { version = "1", features = ["derive"] }
serde_json = "1"
tokio = { version = "1", features = ["full"] }
