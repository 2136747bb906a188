[package]
name = "fortified_llm_client"
version = "0.1.0"
edition = "2021"
publish = false

[dependencies]
regex = "1"
serde_json = "1"
serde = { version = "1", features = ["derive"] }
tokio = { version = "1", features = ["rt-multi-thread", "macros", "process", "fs", "time"] }
reqwest = { version = "0.12", default-features = false, features = ["json", "rustls-tls"] }
clap = { version = "4", features = ["derive"] }
figment = { version = "0.10", features = ["toml", "json"] }
toml = "0.8"
chrono = "0.4"
log = "0.4"
env_logger = "0.11"
dotenvy = "0.15"
jsonschema = { version = "*", default-features = false }
async-trait = "0.1"
futures = "0.3"
