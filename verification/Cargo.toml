[package]
name = "amp-common"
version = "0.1.0"
edition = "2021"
publish = false

[dependencies]
anyhow = "=1.0.104"
base64 = "=0.21.7"
convert_case = "=0.6.0"
k8s-openapi = { version = "=0.20.0", default-features = false, features = ["v1_28", "schemars"] }
kube = { version = "=0.87.2", default-features = false, features = ["derive"] }
schemars = "=0.8.22"
serde = { version = "=1.0.229", features = ["derive"] }
serde_json = "=1.0.154"
ureq = { version = "2", default-features = false, features = ["tls"] }
validator = { version = "=0.16.1", features = ["derive"] }
