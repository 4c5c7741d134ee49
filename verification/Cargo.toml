[package]
name = "cert_manager_https"
version = "0.1.0"
edition = "2021"
publish = false

[dependencies]
axum = "0.8"
chrono = "0.4"
data-encoding = "2"
futures = "0.3"
hyper-util = { version = "0.1", features = ["server-auto", "service", "tokio", "http1", "http2"] }
k8s-openapi = { version = "0.25", features = ["latest"] }
kube = { version = "1", default-features = false, features = ["client", "runtime", "derive"] }
lazy_static = "1"
rustls = "0.23"
serde = { version = "1", features = ["derive"] }
serde_json = "1"
thiserror = "2"
tokio = { version = "1", features = ["net", "rt", "rt-multi-thread", "sync", "time", "macros"] }
tokio-rustls = "0.26"
tokio-stream = { version = "0.1", features = ["net"] }
