[package]
name = "cashu_mint_ln"
version = "0.1.0"
edition = "2021"
publish = false

[dependencies]
anyhow = "=1.0.104"
async-trait = "=0.1.92"
axum = "=0.6.20"
bitcoin = "=0.30.3"
bitcoin_hashes = "=0.12.0"
cln-rpc = "=0.1.9"
gl-client = "=0.1.9"
ldk-node = "=0.2.2"
lightning-invoice = "=0.29.0"
serde = { version = "=1.0.229", features = ["derive"] }
serde_json = "=1.0.154"
