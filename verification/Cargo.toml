[package]
name = "enoa_signs"
version = "0.1.0"
edition = "2021"
publish = false

[dependencies]
anyhow = "1"
chrono = "0.4"
config = { version = "*", default-features = false }
deadpool-postgres = { version = "*", features = ["serde"] }
dotenv = "0.15"
env_logger = "0.11"
http-body-util = "0.1"
hyper = { version = "1", features = ["http1", "server"] }
hyper-util = { version = "0.1", features = ["tokio"] }
indoc = "2"
log = "0.4"
querystring = "1"
rand = "0.8"
refinery = { version = "*", features = ["tokio-postgres"] }
serde = { version = "1", features = ["derive"] }
serde_json = "1"
serenity = { version = "0.12", default-features = false, features = ["builder", "client", "gateway", "http", "model", "utils", "rustls_backend", "interactions_endpoint"] }
tokio = { version = "1", features = ["macros", "rt-multi-thread", "net"] }
tokio-postgres = "0.7"

[dev-dependencies]
ed25519-dalek = "2"
