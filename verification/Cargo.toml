[package]
name = "mtg_image_downloader"
version = "0.1.0"
edition = "2021"
publish = false

[dependencies]
clap = { version = "=3.2.25", features = ["derive"] }
color-eyre = "=0.6.5"
console-subscriber = "=0.1.10"
dotenv = "=0.15.0"
flume = "=0.10.14"
futures = "=0.3.34"
indicatif = "0.17"
reqwest = { version = "=0.11.27", features = ["stream"] }
serde = { version = "=1.0.229", features = ["derive"] }
serde_json = "=1.0.154"
tokio = { version = "=1.54.1", features = ["full"] }
tokio-stream = "=0.1.19"
tracing = "=0.1.44"
