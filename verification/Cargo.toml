[package]
name = "horizon_hud"
version = "0.1.0"
edition = "2021"
publish = false

[dependencies]
serde = { version = "1", features = ["derive"] }
confy = "0.6"
webbrowser = "1"
image = { version = "0.25", default-features = false, features = ["png"] }
raw-window-handle = "0.6"
tray-icon = "0.21"
windows = { version = "0.61", features = ["Win32_Foundation", "Win32_Graphics_Dwm", "Win32_Graphics_Gdi", "Win32_System_Threading", "Win32_UI_HiDpi", "Win32_UI_WindowsAndMessaging"] }
