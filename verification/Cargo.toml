[package]
name = "media_catalog"
version = "0.1.0"
edition = "2021"
publish = false

[dependencies]
anyhow = "1"
async-trait = "0.1"
serde = { version = "1", features = ["derive"] }
thiserror = "1"
tokio-postgres = "0.7"
warp = { version = "0.3", default-features = false }
