[package]
name = "versioned_graph"
version = "0.1.0"
edition = "2021"
publish = false

[dependencies]
ulid = { version = "=1.2.1", features = ["serde"] }
blake3 = "=1.8.7"
chrono = "=0.4.45"
serde = { version = "=1.0.229", features = ["derive"] }
serde_json = "=1.0.151"
url = { version = "=2.5.8", features = ["serde"] }
proc-macro2 = "=1.0.107"
quote = "=1.0.47"
syn = { version = "=1.0.109", features = ["full"] }
