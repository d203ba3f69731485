[package]
name = "kubernetes_metrics"
version = "0.1.0"
edition = "2021"
publish = false

[dependencies]
serde_json = "1"
kube = { version = "*", features = ["client", "runtime"] }
k8s-openapi = { version = "*", features = ["latest"] }
tokio = { version = "1", features = ["macros", "rt-multi-thread", "time"] }
log = "0.4"
env_logger = "*"
http = "*"
chrono = "0.4"
time = "0.1"
protobuf = "2"
