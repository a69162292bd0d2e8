[package]
name = "rbac_views"
version = "0.1.0"
edition = "2021"
publish = false

[dependencies]
chrono = { version = "=0.4.45", default-features = false, features = ["now"] }
k8s-openapi = { version = "=0.22.0", default-features = false, features = ["v1_28"] }

[dev-dependencies]
serde_json = "=1.0.154"
