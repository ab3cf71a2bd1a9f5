[package]
name = "ota_agent"
version = "0.1.0"
edition = "2021"
publish = false

[dependencies]
anyhow = "1"
embedded-svc = "*"
esp-idf-hal = "*"
esp-idf-svc = "*"
esp-idf-sys = { version = "*", features = ["binstart"] }
esp-ota = "*"
log = "0.4"
semver = "1"
serde = { version = "1", features = ["derive"] }
serde_json = "1"
toml-cfg = "*"
