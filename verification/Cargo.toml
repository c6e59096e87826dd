[package]
name = "entropy"
version = "0.1.0"
edition = "2021"
publish = false

[dependencies]
url = { version = "=2.5.8", features = ["serde"] }
urlencoding = "=2.1.3"
chrono = { version = "=0.4.45", features = ["serde"] }
uuid = { version = "=1.29.1", features = ["serde", "v4"] }
serde = { version = "=1.0.229", features = ["derive"] }
serde_json = "=1.0.154"
toml = "=0.8.23"
structopt = "=0.3.26"
anyhow = "=1.0.104"
tokio = { version = "=1.54.1", features = ["full"] }
reqwest = { version = "=0.11.27", features = ["json"] }
diesel = { version = "=2.3.14", features = ["postgres", "chrono", "uuid"] }
diesel_migrations = "=2.3.2"
figment = { version = "=0.10.19", features = ["toml", "env"] }
log = "=0.4.35"
env_logger = "=0.9.3"
regex = "=1.13.1"
futures = "=0.3.34"
async-stream = "=0.3.6"
tokio-stream = "=0.1.19"
pulldown-cmark = "=0.12.2"
rust-s3 = "=0.33.0"
rsass = "=0.28.10"
rocket = "=0.5.2"
rocket_dyn_templates = { version = "=0.2.0", features = ["tera"] }
rocket_sync_db_pools = { version = "=0.1.0", features = ["diesel_postgres_pool"] }
