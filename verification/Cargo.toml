[package]
name = "zanshin_launcher"
version = "0.1.0"
edition = "2021"
publish = false

[dependencies]
serde_json = "1"
libc = "0.2"
rusqlite = "*"
zmq = "0.10"
tauri = { version = "2", default-features = false }
