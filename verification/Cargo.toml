[package]
name = "gitbutler-menu"
version = "0.1.0"
edition = "2021"
publish = false

[dependencies]
anyhow = "1"
open = "5"
tauri = { version = "2", default-features = false }
tracing = "0.1"
