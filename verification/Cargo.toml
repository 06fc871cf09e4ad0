[package]
name = "global-hotkey"
version = "0.1.0"
edition = "2021"
publish = false

[dependencies]
keyboard-types = "0.7"
objc2 = "0.6"
objc2-app-kit = { version = "0.3", default-features = false, features = ["std", "NSEvent"] }
