[package]
name = "mc_hash_import"
version = "0.1.0"
edition = "2021"
publish = false

[dependencies]
async-trait = "0.1"
figment = { version = "0.10", features = ["env"] }
log = "0.4"
serde = { version = "1", features = ["derive"] }
