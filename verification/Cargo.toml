[package]
name = "db_store"
version = "0.1.0"
edition = "2021"
publish = false

[dependencies]
dirs = "*"
thiserror = "*"
tauri = { version = "2", default-features = false }
