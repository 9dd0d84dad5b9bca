[package]
name = "yandere_bot"
version = "0.1.0"
edition = "2021"
publish = false

[dependencies]
anyhow = "1"
figment = { version = "=0.10.19", features = ["toml", "env"] }
job_scheduler = "=1.2.1"
lazy_static = "=1.4.0"
log = "=0.4.34"
once_cell = "=1.19.0"
pretty_env_logger = "=0.5.0"
redis = "=0.26.1"
regex = "=1.10.6"
reqwest = { version = "=0.11.27", default-features = false, features = ["rustls-tls"] }
serde = { version = "1", features = ["derive"] }
serde_json = "1"
takecell = "=0.1.1"
teloxide = { version = "=0.12.2", default-features = false, features = ["rustls"] }
tokio = { version = "=1.44.2", features = ["macros", "rt-multi-thread"] }
url = "=2.5.8"
