[package]
name = "transport_service"
version = "0.1.0"
edition = "2021"
publish = false

[dependencies]
indexmap = "1.9"
multimap = "0.8"
tower = { version = "0.4", features = ["buffer", "util"] }
tower-service = "0.3"
futures = "0.3"
