[package]
name = "label_propagator"
version = "0.1.0"
edition = "2021"
publish = false

[dependencies]
serde_json = "=1.0.151"
serde = { version = "=1.0.229", features = ["derive"] }
anyhow = "=1.0.104"
k8s-openapi = { version = "=0.28.0", features = ["v1_33"] }
kubewarden-policy-sdk = "=0.17.3"
