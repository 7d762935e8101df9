[package]
name = "win_shortcuts"
version = "0.1.0"
edition = "2021"
publish = false

[dependencies]
winapi = { version = "0.3", features = ["winuser", "libloaderapi", "windef", "minwindef"] }
native-windows-gui = { version = "1.0", default-features = false, features = ["tray-notification", "message-window", "menu", "cursor"] }
native-windows-derive = "1.0"
