[package]
name = "mmp"
version = "0.1.0"
edition = "2021"
publish = false

[dependencies]
rustc-hash = "=1.1.0"
dashmap = "=5.5.3"
serde = { version = "=1.0.229", features = ["derive"] }
serde_json = "=1.0.154"
lofty = "=0.18.2"
tantivy = "=0.21.1"
zstd-sys = { version = "=2.0.8", default-features = false }
axum = "=0.7.9"
tokio = { version = "=1.54.1", features = ["full"] }
clap = { version = "=4.6.7", features = ["derive"] }
eyre = "=0.6.14"
tracing = "=0.1.44"
tracing-subscriber = { version = "=0.3.23", features = ["env-filter"] }
tracing-tree = "=0.3.1"
ffmpeg-sidecar = "=0.5.1"
async-walkdir = "=1.0.0"
futures = "=0.3.34"
parking_lot = "=0.12.5"
