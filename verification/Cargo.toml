[package]
name = "keymenu"
version = "0.1.0"
edition = "2021"
publish = false

[dependencies]
cocoa = "0.24"
objc = "0.2"
parking_lot = "0.11"
winapi = { version = "0.3", features = ["basetsd", "minwindef", "windef", "winuser"] }
