[package]
name = "bacnet"
version = "0.1.0"
edition = "2021"
publish = false

[dependencies]
anyhow = "1"
lazy_static = "1"
log = "0.4"
once_cell = "1"
serde = { version = "1", features = ["derive"] }
thiserror = "1"
