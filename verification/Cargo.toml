[package]
name = "tweetchive"
version = "0.1.0"
edition = "2021"
publish = false

[dependencies]
reqwest = { version = "=0.11.27", default-features = false }
url = "=2.5.8"
base64 = "=0.21.7"
argon2 = "=0.4.1"
seahash = "=4.1.0"
nanorand = "=0.7.0"
chrono = "=0.4.45"
uuid = { version = "=1.29.1", features = ["serde"] }
serde = { version = "=1.0.229", features = ["derive"] }
serde_json = "=1.0.154"
toml = "=0.5.11"
thiserror = "=1.0.69"
tokio = { version = "=1.54.1", features = ["full"] }
axum = "=0.6.20"
rkyv = { version = "=0.7.46", features = ["validation"] }
scraper = { version = "=0.14.0", default-features = false, features = ["deterministic"] }
futures = "=0.3.34"
flume = "=0.10.14"
dashmap = "=5.5.3"
rand_core = { version = "=0.6.4", features = ["getrandom"] }
tracing = "=0.1.44"
deadpool = "=0.9.5"
sea-orm = { version = "=0.10.7", default-features = false, features = ["macros", "with-chrono", "with-uuid"] }
lapin = { version = "=2.5.5", default-features = false }
fantoccini = { version = "=0.19.3", default-features = false }
hyper = { version = "=0.14.32", default-features = false }
youtube_dl = "=0.8.1"
couch_rs = { version = "=0.9.4", default-features = false }

[dev-dependencies]
http = "=0.2.12"
