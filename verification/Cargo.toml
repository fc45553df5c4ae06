[package]
name = "skardi"
version = "0.1.0"
edition = "2021"
publish = false

[dependencies]
anyhow = "=1.0.104"
arrow = { version = "=57.3.2", default-features = false }
async-trait = "=0.1.92"
axum = "=0.8.9"
better-auth = { version = "=0.10.0", default-features = false, features = ["rustls"] }
blake3 = { version = "=1.8.7", default-features = false, features = ["pure"] }
chrono = "=0.4.45"
clap = { version = "=4.6.7", features = ["derive"] }
cookie = "=0.18.2"
datafusion = { version = "=52.5.0", default-features = false, features = ["sql"] }
futures = "=0.3.34"
serde = { version = "=1.0.229", features = ["derive"] }
serde_json = "=1.0.154"
serde_yaml = "=0.9.34"
thiserror = "=2.0.21"
tokio = { version = "=1.54.1", features = ["rt-multi-thread", "macros", "net", "time"] }
tokio-rusqlite = { version = "=0.8.0", features = ["bundled"] }
tracing = "=0.1.44"
tracing-subscriber = { version = "=0.3.23", features = ["env-filter"] }
url = "=2.5.8"
