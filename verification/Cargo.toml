[package]
name = "kubeview"
version = "0.1.0"
edition = "2021"
publish = false

[dependencies]
anyhow = "1"
chrono = "0.4"
crossterm = "*"
fuzzy-matcher = "0.3"
k8s-openapi = { version = "*", features = ["latest"] }
kube = { version = "*", features = ["client", "config", "rustls-tls"] }
ratatui = "*"
serde_json = "1"
tokio = { version = "1", features = ["full"] }
