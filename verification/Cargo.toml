[package]
name = "ember"
version = "0.1.0"
edition = "2021"
publish = false

[dependencies]
bytes = "1"
http = "1"
flume = "0.11"
rustc-hash = "2"
tokio = { version = "1", features = ["full"] }
tokio-websockets = { version = "0.13", features = ["server", "client", "sha1_smol", "fastrand"] }
futures-util = { version = "0.3", features = ["sink"] }
clap = { version = "4", features = ["derive"] }
serde = { version = "1", features = ["derive"] }
toml = "0.8"
tracing = "0.1"
tracing-subscriber = { version = "0.3", features = ["env-filter"] }
thiserror = "1"
async-trait = "0.1"
dashmap = "6"
libc = "0.2"
rustls = "0.23"
rustls-pemfile = "2"
tokio-rustls = "0.26"
tikv-jemallocator = "0.6"
crossterm = "0.28"
ratatui = "0.29"
