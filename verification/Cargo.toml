[package]
name = "eln_plugin_sdk"
version = "0.1.0"
edition = "2021"
publish = false

[dependencies]
async-trait = "0.1"
bitflags = "2"
serde = { version = "1", features = ["derive"] }
serde_json = "1"
thiserror = "2"
