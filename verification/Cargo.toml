[package]
name = "ipfs_proxy"
version = "0.1.0"
edition = "2021"
publish = false

[dependencies]
cid = "0.11"
dashmap = "6"
infer = "0.16"
mime = "0.3"
mime_guess = "2"
tracing = "0.1"
actix-files = "0.6"
actix-web = { version = "4", default-features = false, features = ["macros", "compress-gzip"] }
anyhow = "1"
askama = { version = "0.12", default-features = false }
bytes = "1"
chrono = { version = "0.4", default-features = false, features = ["clock", "std"] }
clap = { version = "4", features = ["derive"] }
config = { version = "0.14", default-features = false, features = ["toml"] }
env_logger = { version = "0.11", default-features = false }
futures = "0.3"
image = { version = "0.25", default-features = false, features = ["png", "jpeg"] }
imagesize = "0.13"
reqwest = { version = "0.12", default-features = false, features = ["rustls-tls", "stream"] }
sea-orm = { version = "1", default-features = false, features = ["sqlx-sqlite", "runtime-tokio-rustls", "macros", "with-chrono"] }
serde = { version = "1", features = ["derive"] }
tempfile = "3"
tokio = { version = "1", features = ["full"] }
tracing-subscriber = { version = "0.3", features = ["env-filter"] }
