[package]
name = "wintun_session"
version = "0.1.0"
edition = "2021"
publish = false

[dependencies]
log = "*"
windows-sys = { version = "*", features = ["Win32_Foundation", "Win32_System_Threading"] }
