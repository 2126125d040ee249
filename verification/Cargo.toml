[package]
name = "heartbeat"
version = "0.1.0"
edition = "2021"
publish = false

[dependencies]
reqwest = { version = "=0.13.5", default-features = false, features = ["json", "query"] }
tokio = { version = "=1.53.2", features = ["rt-multi-thread", "time", "sync", "macros"] }
futures = "=0.3.34"
futures-util = "=0.3.34"
serde = { version = "=1.0.229", features = ["derive"] }
chrono = "=0.4.45"
k8s-openapi = { version = "=0.28.0", features = ["latest"] }
pyo3 = "=0.29.3"
