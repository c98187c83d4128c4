[package]
name = "tirds"
version = "0.1.0"
edition = "2021"
publish = false

[dependencies]
rusqlite = { version = "*", features = ["bundled"] }
moka = { version = "*", features = ["sync"] }
serde_json = "*"
serde = { version = "*", features = ["derive"] }
chrono = { version = "*", features = ["serde"] }
thiserror = "*"
anyhow = "*"
clap = { version = "*", features = ["derive"] }
toml = "*"
tokio = { version = "*", features = ["full"] }
tokio-util = "*"
tracing = "*"
tracing-subscriber = { version = "*", features = ["env-filter"] }
uuid = { version = "*", features = ["v4", "serde"] }
rust_decimal = "*"
async-trait = "*"

[dev-dependencies]
tempfile = "*"
