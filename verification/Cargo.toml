[package]
name = "record_store"
version = "0.1.0"
edition = "2021"
publish = false

[dependencies]
chrono = "0.4"
druid = "0.8"
rusqlite = { version = "*", features = ["bundled"] }
