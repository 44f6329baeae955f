[package]
name = "input_replay"
version = "0.1.0"
edition = "2021"
publish = false

[dependencies]
anyhow = "1"
bincode = "1.3"
kernel32-sys = "0.2"
winapi = { version = "0.3", features = ["minwindef", "ntdef", "windef", "winuser"] }
winrt = { version = "0.6", features = ["windows-data", "windows-ui"] }
