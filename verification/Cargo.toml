[package]
name = "hooksmith"
version = "0.1.0"
edition = "2021"
publish = false

[dependencies]
sha2 = "=0.10.9"
uuid = { version = "=1.29.0", features = ["v4"] }
chrono = "=0.4.45"
serde = { version = "=1.0.229", features = ["derive"] }
serde_json = "=1.0.154"
json-patch = "=4.2.0"
anyhow = "=1.0.104"
thiserror = "=2.0.21"
regex = "=1.13.1"
jsonschema = { version = "0.17", default-features = false }
serde_yaml = "0.9"
which = "*"
git2 = { version = "*", default-features = false }
