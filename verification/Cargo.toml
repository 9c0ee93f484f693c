[package]
name = "rust_proxy"
version = "0.1.0"
edition = "2021"
publish = false

[dependencies]
url = "=2.5.8"
http = "=0.2.12"
serde_json = "=1.0.154"
dashmap = "=5.5.3"
rustls-pemfile = "=1.0.4"
pkcs8 = { version = "=0.7.6", features = ["pem"] }
anyhow = "=1.0.104"
log = "=0.4.34"
lazy_static = "=1.5.1"
futures = "=0.3.34"
tokio = { version = "=1.54.1", features = ["full"] }
hyper = { version = "=0.14.32", features = ["full"] }
hyper-rustls = { version = "=0.23.2", features = ["webpki-tokio"] }
hyper-staticfile = "=0.9.6"
rustls = "=0.20.9"
tokio-rustls = "=0.23.4"
prometheus = "=0.13.4"
rand = "=0.8.8"
rocket = { version = "=0.5.2", features = ["json"] }
serde = { version = "=1.0.229", features = ["derive"] }
serde_yaml = "=0.8.26"
