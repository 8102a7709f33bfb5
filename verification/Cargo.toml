[package]
name = "wallet_gateway"
version = "0.1.0"
edition = "2021"
publish = false

[dependencies]
actix-cors = "*"
actix-web = "4"
bitcoincore-rpc = "*"
dashmap = "*"
dotenv = "0.15"
env_logger = "*"
hex = "0.4"
log = "0.4"
serde = { version = "1", features = ["derive"] }
