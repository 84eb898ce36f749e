[package]
name = "ytconvertv2"
version = "0.1.0"
edition = "2021"
publish = false

[dependencies]
fuzzy-matcher = "=0.3.7"
youtube_dl = { version = "=0.10.0", features = ["downloader-rustls-tls"] }
ffmpeg-sidecar = "=2.7.0"
temp-dir = "=0.1.16"
nanoid = "=0.4.0"
nanoserde = "=0.2.1"
platform-dirs = "=0.3.0"
thiserror = "=2.0.21"
anyhow = "=1.0.104"
num-traits = "=0.2.19"
open = "=5.4.5"
tokio = { version = "=1.54.1", features = ["rt-multi-thread", "sync"] }
reqwest = { version = "=0.12.28", default-features = false, features = ["blocking", "rustls-tls"] }
velopack = "=1.2.161"
rfd = "*"
image = { version = "*", default-features = false, features = ["jpeg", "png"] }
