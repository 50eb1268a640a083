[package]
name = "lapdev_ws"
version = "0.1.0"
edition = "2021"
publish = false

[dependencies]
anyhow = "*"
bytes = "*"
chrono = { version = "=0.4.45", features = ["serde"] }
clap = { version = "=4.6.7", features = ["derive"] }
docker-compose-types = "=0.24.0"
futures = "*"
http-body-util = "*"
hyper = { version = "=1.11.1", features = ["http1", "client"] }
hyper-util = { version = "*", features = ["client", "client-legacy", "http1", "tokio"] }
hyperlocal = "=0.9.1"
json5 = "*"
netstat2 = "=0.11.2"
serde = { version = "*", features = ["derive"] }
serde_json = "=1.0.151"
serde_yaml = "*"
tarpc = { version = "=0.38.0", features = ["serde-transport", "serde-transport-bincode", "tcp"] }
tempfile = "*"
tokio = { version = "*", features = ["full"] }
toml = "*"
tracing = "*"
uuid = { version = "=1.27.0", features = ["v4", "serde"] }
