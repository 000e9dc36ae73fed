//! Ingestion library for a TLS MQTT subscriber that persists sensor
//! readings (temperature, relative humidity, timestamp) to a local
//! SQLite database, one row per message.

pub mod config;
pub mod decode;
pub mod ingest;
pub mod reading;
