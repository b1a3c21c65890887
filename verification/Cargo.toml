[package]
name = "bitcoin_addresses"
version = "0.1.0"
edition = "2021"
publish = false

[dependencies]
bitcoin = "0.32"
bech32 = "0.11"
ic-cdk = "*"
candid = "*"
serde = { version = "*", features = ["derive"] }
