[package]
name = "nidus"
version = "0.1.0"
edition = "2021"
publish = false

[dependencies]
anyhow = "1"
bme680 = "0.5"
chrono = "0.4"
dotenv = "0.15"
embedded-graphics = "0.6"
embedded-graphics-simulator = "0.2"
embedded-hal = "0.2"
env_logger = "0.7"
epd-waveshare = "0.4"
influx_db_client = "0.5"
lazy_static = "1"
linux-embedded-hal = "0.3"
log = "0.4"
tokio = { version = "1", features = ["rt-multi-thread"] }
