[package]
name = "sando_rs"
version = "0.1.0"
edition = "2021"
publish = false

[dependencies]
ethers = { version = "=2.0.14", default-features = false, features = ["ws"] }
tokio = { version = "=1.54.1", features = ["rt-multi-thread", "macros", "sync", "time"] }
url = "=2.5.8"
reqwest = { version = "=0.11.27", default-features = false }
dashmap = "=5.5.3"
log = "=0.4.34"
colored = "=2.2.0"
hex = "=0.4.3"
eyre = "=0.6.14"
dotenv = "=0.15.0"
serde = { version = "=1.0.229", features = ["derive"] }
serde_json = "=1.0.154"
chrono = "=0.4.45"
fern = { version = "0.6", features = ["colored"] }
zstd = "0.12"
