[package]
name = "myrulesiot"
version = "0.1.0"
edition = "2021"
publish = false

[dependencies]
serde_json = "=1.0.154"
chrono = { version = "=0.4.45", default-features = false, features = ["clock", "std"] }
serde = { version = "=1.0.229", features = ["derive"] }
tokio = { version = "=1.54.1", features = ["rt", "rt-multi-thread", "macros", "sync", "time"] }
rumqttc = { version = "=0.25.1", default-features = false }
config = { version = "=0.15.27", default-features = false, features = ["toml"] }
env_logger = { version = "=0.11.11", default-features = false }
log = "=0.4.34"
thiserror = "=1.0.69"

[dev-dependencies]
json-patch = "=4.2.0"
