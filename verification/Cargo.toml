[package]
name = "raft"
version = "0.1.0"
edition = "2021"
publish = false

[dependencies]
tokio = { version = "=1.54.1", features = ["sync", "rt", "time", "macros"] }
chrono = "=0.4.45"
crossbeam = "=0.8.5"
parking_lot = "=0.11.2"
sonyflake = "=0.1.2"
serde = { version = "=1.0.229", features = ["derive"] }
rmp-serde = "=1.3.1"
metrics = "=0.17.1"
lazy_static = "=1.5.1"
anyhow = "=1.0.104"
tracing = "=0.1.44"
prost = "=0.8.0"
tonic = "=0.5.2"
http = "=0.2.12"
parse-display = "=0.5.5"
