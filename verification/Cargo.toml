[package]
name = "nvl_store"
version = "0.1.0"
edition = "2021"
publish = false

[dependencies]
rusqlite = { version = "*", features = ["bundled"] }
dirs-next = "*"
serde_json = "*"
