[package]
name = "indexer_service"
version = "0.1.0"
edition = "2021"
publish = false

[dependencies]
secp256k1 = { version = "*", features = ["recovery"] }
tiny-keccak = { version = "*", features = ["keccak"] }
serde = { version = "*", features = ["derive"] }
serde_json = "*"
toml = "*"
clap = { version = "*", features = ["derive", "env"] }
confy = "*"
tokio = { version = "*", features = ["rt-multi-thread", "macros", "signal"] }
tracing = "*"
tracing-subscriber = { version = "*", features = ["env-filter", "json"] }
anyhow = "*"
thiserror = "*"
log = "*"
sqlx = { version = "=0.7.4", features = ["postgres", "runtime-tokio-rustls", "bigdecimal"] }
