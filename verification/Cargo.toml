[package]
name = "rustagent"
version = "0.1.0"
edition = "2021"
publish = false

[dependencies]
rig-core = { version = "=0.32.0", default-features = false }
serde = { version = "=1.0.229", features = ["derive"] }
serde_json = "=1.0.154"
thiserror = "=2.0.21"
tokio = { version = "=1.54.1", features = ["full"] }
reqwest = { version = "=0.12.28", default-features = false, features = ["json", "stream", "rustls-tls"] }
futures-util = "=0.3.34"
