[package]
name = "wallora"
version = "0.1.0"
edition = "2021"
publish = false

[dependencies]
serde = { version = "=1.0.229", features = ["derive"] }
serde_json = "=1.0.154"
tokio = { version = "=1.54.1", features = ["rt", "time"] }
urlencoding = "=2.1.3"
walkdir = "=2.5.0"
winapi = { version = "=0.3.9", features = ["errhandlingapi", "windef", "winuser"] }
