[package]
name = "onvif_metadata"
version = "0.1.0"
edition = "2021"
publish = false

[dependencies]
serde = { version = "=1.0.229", features = ["derive"] }
serde_json = "=1.0.154"
quickxml_to_serde = "=0.7.1"
chrono = "=0.4.45"
uuid = { version = "=1.29.0", features = ["v4"] }
anyhow = "=1.0.104"
tokio = { version = "=1.54.1", features = ["full"] }
tokio-util = { version = "=0.7.20", features = ["codec"] }
futures = "=0.3.34"
url = "=2.5.8"
async-trait = "=0.1.92"
lazy_static = "=1.5.1"
async_once = "=0.2.6"
dotenv = "=0.15.0"
clap = { version = "=4.6.7", features = ["derive"] }
reqwest = { version = "=0.11.27", features = ["json", "multipart", "stream"] }
retina = "=0.4.21"
rdkafka = "=0.39.0"
mongodb = { version = "=2.8.2", features = ["tokio-sync"] }
bson = "=2.15.0"
actix-web = "=4.18.1"
