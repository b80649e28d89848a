[package]
name = "eth_rpc_client"
version = "0.1.0"
edition = "2021"
publish = false

[dependencies]
async-trait = "0.1"
candid = "0.10"
futures = "0.3"
ic-canister-log = "*"
ic-cdk = "0.12"
ic-cdk-macros = "0.8"
minicbor = { version = "*", features = ["derive"] }
serde = { version = "1", features = ["derive"] }
thiserror = "1"
