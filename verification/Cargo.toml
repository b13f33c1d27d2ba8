[package]
name = "zeroidle"
version = "0.1.0"
edition = "2021"
publish = false

[dependencies]
zip = { version = "2", default-features = false, features = ["deflate"] }
ureq = "3"
dirs = "6"
winreg = "0.55"
windows = { version = "0.58", features = ["Win32_Foundation", "Win32_System_Diagnostics_ToolHelp", "Win32_System_Threading", "Win32_UI_WindowsAndMessaging"] }
eframe = { version = "0.31", default-features = false, features = ["glow", "wgpu", "default_fonts"] }
