[package]
name = "timing_exporter"
version = "0.1.0"
edition = "2021"
publish = false

[dependencies]
log = "=0.4.35"
reqwest = { version = "=0.12.28", default-features = false, features = ["blocking", "json", "gzip"] }
serde = { version = "=1.0.229", features = ["derive"] }
