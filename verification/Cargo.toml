[package]
name = "agents_config"
version = "0.1.0"
edition = "2021"
publish = false

[dependencies]
http = "=1.5.0"
serde = { version = "=1.0.229", features = ["derive"] }
serde_json = "=1.0.154"
toml = "=0.8.23"
thiserror = "=2.0.21"
tempfile = "=3.27.0"
rig = { version = "=0.41.0", default-features = false, features = ["agent"] }
