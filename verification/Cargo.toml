[package]
name = "quickspace"
version = "0.1.0"
edition = "2021"
publish = false

[dependencies]
core-foundation = "0.10"
core-graphics = "0.24"
foreign-types-shared = "0.3"
global-hotkey = "0.6"
log = "0.4"
tauri = { version = "2", default-features = false, features = ["tray-icon"] }
