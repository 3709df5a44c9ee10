[package]
name = "sensor_ingest"
version = "0.1.0"
edition = "2021"
publish = false

[dependencies]
axum = "0.7"
chrono = "0.4"
dotenv = "0.15"
futures = "0.3"
influxdb2 = { version = "0.5", default-features = false }
serde = "1"
serde_derive = "1"
tokio = { version = "1", features = ["full"] }
