[package]
name = "egui_directx10"
version = "0.1.0"
edition = "2021"
publish = false

[dependencies]
egui = { version = "0.27", default-features = false }
log = "0.4"
windows = { version = "0.54", features = ["Win32_Foundation", "Win32_Graphics_Direct3D", "Win32_Graphics_Direct3D10", "Win32_Graphics_Dxgi_Common"] }
