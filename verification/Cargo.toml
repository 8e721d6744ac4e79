[package]
name = "spacegate_kernel"
version = "0.1.0"
edition = "2021"
publish = false

[dependencies]
async-trait = "0.1"
chrono = "0.4"
http = "0.2"
hyper = { version = "0.14", features = ["full"] }
hyper-rustls = "0.24"
lazy_static = "1"
lru = "0.12"
rustls = { version = "0.21", features = ["dangerous_configuration"] }
serde = { version = "1", features = ["derive"] }
serde_json = "1"
tardis = { version = "0.1.0-alpha1", features = ["cache"] }
tokio = { version = "1", features = ["full"] }
