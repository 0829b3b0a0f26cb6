[package]
name = "jsonrpc"
version = "0.1.0"
edition = "2021"
publish = false

[dependencies]
serde = { version = "1", features = ["derive"] }
serde_json = "1"
futures = "0.1"
hyper = "0.11"
ws = "0.7"
parking_lot = "0.4"
threadpool = "1"
clap = "2"
dotenv = "0.10"
log = "0.3"
