[package]
name = "obvia"
version = "0.1.0"
edition = "2021"
publish = false

[dependencies]
regex = "=1.13.1"
uuid = { version = "=1.29.1", features = ["v4", "v7", "serde"] }
bigdecimal = { version = "=0.4.11", features = ["serde"] }
chrono = { version = "=0.4.45", features = ["serde"] }
chrono-tz = "=0.10.4"
indexmap = "=2.14.2"
serde = { version = "=1.0.229", features = ["derive"] }
serde_json = "=1.0.154"
thiserror = "=2.0.21"
clap = { version = "=4.6.7", features = ["derive"] }
