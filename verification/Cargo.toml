[package]
name = "cell_retrieval"
version = "0.1.0"
edition = "2021"
publish = false

[dependencies]
anyhow = "1"
async-std = "1"
futures = "0.3"
ipfs-embed = { version = "0.22.4", default-features = false, features = ["async_global"] }
libipld = { version = "0.12", default-features = false }
log = "0.4"
