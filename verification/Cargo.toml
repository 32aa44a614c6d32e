[package]
name = "odoo_operator"
version = "2.4.0"
edition = "2021"
publish = false

[dependencies]
async-trait = "=0.1.92"
chrono = "=0.4.45"
futures = "=0.3.34"
gateway-api = "=0.15.0"
hex = "=0.4.3"
k8s-openapi = { version = "=0.24.0", features = ["latest", "schemars"] }
kube = { version = "=0.99.0", default-features = false, features = ["client", "runtime", "derive", "admission"] }
rand = "=0.8.8"
rustls = { version = "=0.23.46", default-features = false, features = ["ring", "std", "tls12"] }
schemars = "=0.8.22"
serde = { version = "=1.0.229", features = ["derive"] }
serde_json = "=1.0.154"
sha2 = "=0.10.9"
tokio = { version = "=1.54.1", features = ["net", "rt", "sync", "macros", "time"] }
tokio-rustls = { version = "=0.26.6", default-features = false, features = ["ring", "tls12"] }
tracing = "=0.1.44"
warp = { version = "=0.3.7", default-features = false }
