[package]
name = "grafana_prowl_notifier"
version = "0.1.0"
edition = "2021"
publish = false

[dependencies]
chrono = "*"
cron-parser = "*"
prowl = "*"
serde = { version = "*", features = ["derive"] }
serde_json = "*"
tokio = { version = "*", features = ["rt-multi-thread", "macros", "sync", "time", "net"] }
log = "*"
env_logger = "*"
