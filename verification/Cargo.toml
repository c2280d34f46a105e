[package]
name = "ev3_tunnel"
version = "0.1.0"
edition = "2021"
publish = false

[dependencies]
serde_json = "1"
serde = { version = "1", features = ["derive"] }
confy = "*"
io_bluetooth = "*"
websocket = { version = "*", default-features = false, features = ["sync", "sync-ssl"] }
