[package]
name = "upf-edge"
version = "0.1.0"
edition = "2021"
publish = false

[dependencies]
chrono = "=0.4.45"
anyhow = "=1.0.104"
thiserror = "=1.0.69"
serde = { version = "=1.0.229", features = ["derive"] }
toml = "=0.8.23"
tokio = { version = "=1.54.1", features = ["full"] }
log = "=0.4.35"
env_logger = "=0.11.11"
tracing = "=0.1.44"
tracing-subscriber = { version = "=0.3.23", features = ["env-filter"] }
clap = { version = "=4.6.7", features = ["derive"] }
redis = { version = "=1.8.1", features = ["tokio-comp"] }
ratatui = "=0.29.0"
crossterm = { version = "=0.28.1", features = ["event-stream"] }
tui-textarea = "=0.7.0"
futures = "=0.3.34"
parking_lot = "=0.12.5"
sysinfo = "=0.40.1"
metrics = "=0.24.6"
metrics-exporter-prometheus = { version = "=0.18.3", default-features = false, features = ["http-listener"] }
libc = "=0.2.191"
aya = "=0.13.1"
aya-log = "=0.2.1"
