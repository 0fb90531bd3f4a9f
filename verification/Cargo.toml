[package]
name = "hunyi_backend"
version = "0.1.0"
edition = "2021"
publish = false

[dependencies]
actix = "=0.13.5"
actix-web = { version = "=4.18.1", default-features = false, features = ["macros", "compress-gzip", "ws"] }
actix-web-actors = "=4.3.1"
actix-cors = "=0.7.2"
chrono = { version = "=0.4.45", features = ["serde"] }
uuid = { version = "=1.29.0", features = ["v4", "serde"] }
serde = { version = "=1.0.229", features = ["derive"] }
serde_json = "=1.0.154"
thiserror = "=1.0.69"
rand = "=0.8.8"
once_cell = "=1.21.4"
prometheus = { version = "=0.13.4", default-features = false }
rumqttc = { version = "=0.24.0", default-features = false }
tokio = { version = "=1.54.1", features = ["full"] }
tracing = "=0.1.44"
tracing-subscriber = { version = "=0.3.23", features = ["env-filter", "json"] }
tracing-log = "=0.2.0"
