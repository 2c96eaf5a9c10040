[package]
name = "qrt_rust_utils"
version = "0.1.0"
edition = "2021"
publish = false

[dependencies]
regex = "=1.13.1"
chrono = { version = "=0.4.45", features = ["serde"] }
serde = { version = "=1.0.229", features = ["derive"] }
serde_json = "=1.0.154"
tokio = { version = "=1.54.1", features = ["full"] }
tracing = "=0.1.44"
tracing-subscriber = { version = "=0.3.23", features = ["env-filter", "local-time"] }
futures = "=0.3.34"
async-trait = "=0.1.92"
async-recursion = "=1.2.0"
anyhow = "=1.0.104"
thiserror = "=1.0.69"
url = "=2.5.8"
reqwest = { version = "=0.11.27", default-features = false, features = ["rustls-tls"] }
mongodb = { version = "=2.8.2", features = ["bson-chrono-0_4"] }
deadpool-redis = "=0.10.2"
serde-enum-str = "=0.5.0"
derive_builder = "=0.20.2"
config = { version = "=0.11.0", default-features = false, features = ["toml"] }
structopt = "=0.3.26"
deadpool-sqlite = "=0.5.0"
opentelemetry = { version = "=0.20.0", features = ["rt-tokio"] }
opentelemetry-otlp = "=0.13.0"
tracing-opentelemetry = "=0.21.0"
tonic = "=0.9.2"
