[package]
name = "watchcore"
version = "0.1.0"
edition = "2021"
publish = false

[dependencies]
anyhow = "1"
cargo_metadata = "=0.23.1"
log = "0.4"
serde = "1"
serde_json = { version = "=1.0.151", features = ["unbounded_depth"] }
simplelog = "=0.12.2"
tokio = { version = "=1.53.2", features = ["io-util", "macros", "process", "rt", "sync"] }
