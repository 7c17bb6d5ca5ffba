[package]
name = "bluebottle"
version = "0.1.0"
edition = "2021"
publish = false

[dependencies]
rusqlite = { version = "=0.40.2", features = ["bundled"] }
blake3 = "=1.8.7"
directories = "=6.0.0"
uuid = { version = "=1.27.0", features = ["v7"] }
tokio = { version = "=1.53.2", features = ["sync"] }
serde = "=1.0.229"
serde_json = "=1.0.151"
rmp-serde = "=1.3.1"

[dev-dependencies]
tempfile = "=3.27.0"
