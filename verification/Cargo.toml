[package]
name = "bloom"
version = "0.1.0"
edition = "2021"
publish = false

[dependencies]
clap = { version = "4", features = ["derive"] }
windows-sys = { version = "0.59", features = ["Win32_System_Console"] }
