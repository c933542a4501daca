[package]
name = "chirpstack_operator"
version = "0.1.0"
edition = "2021"
publish = false

[dependencies]
dashmap = "6"
sha2 = "0.10"
base64 = "0.22"
kube = { version = "0.98", features = ["runtime", "derive", "client", "rustls-tls"] }
kube-runtime = "0.98"
kube-derive = "0.98"
k8s-openapi = { version = "0.24", features = ["v1_30"] }
schemars = "0.8"
serde = { version = "1", features = ["derive"] }
serde_json = "1"
serde_yaml = "0.9"
tokio = { version = "1", features = ["macros", "rt-multi-thread", "sync", "time"] }
futures = "0.3"
log = "0.4"
env_logger = "0.11"
metrics = "0.24"
metrics-exporter-prometheus = "0.16"
rustls = "0.23"
thiserror = "2"
