[package]
name = "url-previewer"
version = "0.1.0"
edition = "2021"
publish = false

[dependencies]
clap = { version = "=4.6.7", features = ["derive"] }
color-eyre = "=0.6.5"
deadpool-sqlite = "=0.14.0"
ego-tree = "=0.11.1"
encoding_rs = "=0.8.42"
eyre = "=0.6.14"
indexmap = "=2.14.2"
mime = "=0.3.17"
moka = { version = "=0.12.16", features = ["future"] }
regex = "=1.13.1"
reqwest = { version = "=0.12.28", default-features = false, features = ["rustls-tls", "charset", "http2"] }
scraper = "=0.29.0"
serde = { version = "=1.0.229", features = ["derive"] }
tokio = { version = "=1.54.1", features = ["full"] }
toml = "=1.1.8"
tracing = "=0.1.44"
tracing-error = "=0.2.1"
tracing-subscriber = { version = "=0.3.23", features = ["env-filter"] }
url = "=2.5.8"
