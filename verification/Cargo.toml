[package]
name = "rioting"
version = "0.1.0"
edition = "2021"
publish = false

[dependencies]
url = "=2.5.8"
sha1 = "=0.11.0"
base64 = "=0.23.1"
rand = "=0.10.3"
chrono = { version = "=0.4.45", default-features = false, features = ["clock", "std"] }
roxmltree = "=0.21.2"
anyhow = "=1.0.104"
tokio = { version = "=1.54.1", features = ["rt-multi-thread", "macros", "process", "io-util", "sync", "net", "time"] }
reqwest = { version = "=0.13.5", default-features = false }
axum = "=0.8.9"
tower-http = { version = "=0.7.1", features = ["fs"] }
serde = { version = "=1.0.229", features = ["derive"] }
toml = "=1.1.8"
dirs = "=7.0.0"
retina = "=0.4.21"
futures = "=0.3.34"
