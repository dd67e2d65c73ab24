[package]
name = "solar_telemetry"
version = "0.1.0"
edition = "2021"
publish = false

[dependencies]
chrono = "0.4"
futures = "0.3"
influxdb2 = "*"
influxdb2-derive = "*"
tokio = { version = "1", features = ["full"] }
reqwest = { version = "0.11", default-features = false }
serde_json = "1"
