[package]
name = "map_rotation"
version = "0.1.0"
edition = "2021"
publish = false

[dependencies]
chrono = "=0.4.45"
serde_json = "=1.0.154"
scraper = "=0.29.0"
log = "=0.4.35"
pretty_env_logger = "=0.5.0"
reqwest = "=0.12.28"
teloxide = "=0.17.0"
tokio = { version = "=1.54.1", features = ["macros", "rt-multi-thread"] }
takecell = ">=0.1.0, <0.1.2"
