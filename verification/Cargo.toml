[package]
name = "islamic_shariah_validator"
version = "0.1.0"
edition = "2021"
publish = false

[dependencies]
serde = { version = "=1.0.229", features = ["derive"] }
serde_json = "=1.0.154"
thiserror = "=1.0.69"
uuid = { version = "=1.29.1", features = ["v4"] }
chrono = "=0.4.45"
clap = { version = "=4.6.7", features = ["derive"] }
anyhow = "=1.0.104"
env_logger = "=0.11.11"
tokio = { version = "=1.54.1", features = ["macros", "rt-multi-thread", "sync"] }
async-trait = "=0.1.92"
wasm-bindgen = "=0.2.130"
