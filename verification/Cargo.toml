[package]
name = "simloop"
version = "0.1.0"
edition = "2021"
publish = false

[dependencies]
anyhow = "=1.0.104"
bytemuck = { version = "=1.25.2", features = ["derive"] }
cgmath = "=0.18.0"
debug_print = "=1.0.0"
image = { version = "=0.24.9", default-features = false, features = ["png", "jpeg"] }
pollster = "=0.3.0"
raw-window-handle = "=0.5.2"
tobj = { version = "=4.0.5", features = ["async"] }
wgpu = "=0.17.2"
windows = { version = "=0.44.0", features = ["Win32_Foundation", "Win32_Graphics_Gdi", "Win32_Media", "Win32_System_LibraryLoader", "Win32_UI_Input_KeyboardAndMouse", "Win32_UI_WindowsAndMessaging"] }
