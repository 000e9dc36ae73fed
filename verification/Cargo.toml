[package]
name = "mqtt_reader"
version = "0.1.0"
edition = "2021"
publish = false

[dependencies]
json = "*"
rusqlite = { version = "*", features = ["bundled"] }
paho-mqtt = "*"
log = "*"
env_logger = "*"
