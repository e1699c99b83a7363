[package]
name = "thin_pool_docker_volume"
version = "0.1.0"
edition = "2021"
publish = false

[dependencies]
anyhow = "=1.0.104"
axum = "=0.6.20"
clap = { version = "=4.6.7", features = ["derive", "env"] }
docker_plugin = "=0.0.3"
hyper = { version = "=0.14.32", features = ["http1", "server"] }
rustix = { version = "=1.1.6", features = ["fs", "mount"] }
scc = "=3.8.8"
serde = { version = "=1.0.229", features = ["derive"] }
serde_with = "=3.24.0"
tempfile = "=3.27.0"
tokio = { version = "=1.54.1", features = ["fs", "macros", "net", "process", "rt", "sync", "time"] }
tracing = "=0.1.44"
tracing-subscriber = { version = "=0.3.23", features = ["env-filter"] }
zbus = { version = "=5.19.0", default-features = false, features = ["tokio"] }
