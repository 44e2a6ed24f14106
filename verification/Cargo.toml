[package]
name = "ffcv"
version = "0.1.0"
edition = "2021"
publish = false

[dependencies]
anyhow = "1"
clap = { version = "4", features = ["derive"] }
configparser = "3"
glob = "0.3"
serde = { version = "1", features = ["derive"] }
serde_json = "1"
tempfile = "3"
thiserror = "1"
walkdir = "2"
zip = { version = "0.6", default-features = false, features = ["deflate"] }
