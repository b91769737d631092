[package]
name = "event_gauge_exporter"
version = "0.1.0"
edition = "2021"
publish = false

[dependencies]
prometheus = "0.13"
prometheus_exporter = "0.8"
tokio = { version = "1", features = ["macros", "rt-multi-thread"] }
tokio-postgres = "0.7"
env_logger = "0.11"
log = "0.4"
