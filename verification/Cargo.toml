[package]
name = "controller"
version = "0.1.0"
edition = "2021"
publish = false

[dependencies]
anyhow = "=1.0.104"
chrono = { version = "=0.4.45", features = ["serde"] }
futures = "=0.3.34"
json-patch = "=1.4.0"
k8s-openapi = { version = "=0.20.0", features = ["v1_28"] }
kube = { version = "=0.87.2", default-features = false, features = ["client", "runtime", "derive"] }
schemars = { version = "=0.8.22", features = ["chrono"] }
serde = { version = "=1.0.229", features = ["derive"] }
serde_json = "=1.0.154"
tokio = { version = "=1.54.1", features = ["macros", "rt-multi-thread"] }
tokio-stream = "=0.1.19"
tracing = "=0.1.44"
tracing-subscriber = { version = "=0.3.23", features = ["json", "env-filter"] }
