[package]
name = "fmc_vanilla"
version = "0.1.0"
edition = "2021"
publish = false

[dependencies]
fmc_client_api = "0.0.5"
futures-lite = "2"
rand = "0.8"
rusqlite = "0.32"
serde = { version = "1", features = ["derive"] }
serde_json = "1"
tar = "0.4"
zstd = "0.13"
