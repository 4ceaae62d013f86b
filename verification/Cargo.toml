[package]
name = "connect_redirect"
version = "0.1.0"
edition = "2021"
publish = false

[dependencies]
detour = "*"
winapi = { version = "0.3", features = ["minwindef", "ws2def", "libloaderapi", "winnt", "winsock2"] }
