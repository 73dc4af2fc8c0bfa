[package]
name = "faucet"
version = "0.1.0"
edition = "2021"
publish = false

[dependencies]
anyhow = "1"
axum = { version = "0.6", features = ["headers"] }
bitcoin = { version = "0.30", features = ["base64"] }
bitcoincore-rpc = "0.17"
chrono = "0.4"
dotenv = "0.15"
hex = "0.4"
jsonwebtoken = "9"
lightning-invoice = "*"
lnurl-rs = "*"
log = "0.4"
payjoin = { version = "0.13", features = ["receive"] }
pretty_env_logger = "0.5"
reqwest = { version = "0.11", features = ["json"] }
serde = { version = "1", features = ["derive"] }
serde_json = "1"
tokio = { version = "1", features = ["full"] }
tonic_openssl_lnd = "0.2"
tower-http = { version = "0.4", features = ["cors"] }
