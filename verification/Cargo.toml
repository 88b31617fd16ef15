[package]
name = "octx"
version = "0.1.0"
edition = "2021"
publish = false

[dependencies]
anyhow = "1"
chrono = "=0.4.45"
csv = "1"
env_logger = "0.11"
envy = "0.4"
log = "0.4"
octocrab = "=0.47.1"
reqwest = "*"
serde = { version = "1", features = ["derive"] }
serde_json = "=1.0.151"
serde_urlencoded = "=0.7.1"
structopt = "0.3"
tokio = { version = "1", features = ["macros", "rt-multi-thread"] }
