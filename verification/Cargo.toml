[package]
name = "meme_engine"
version = "0.1.0"
edition = "2021"
publish = false

[dependencies]
glam = "*"
rapier3d = "*"
raw-window-handle = "0.6"
thiserror = "*"
tracing = "*"
tracing-subscriber = "*"
windows = { version = "0.52", features = ["Win32_Foundation", "Win32_Graphics_Direct3D", "Win32_Graphics_Direct3D_Fxc", "Win32_Graphics_Direct3D11", "Win32_Graphics_Dxgi", "Win32_Graphics_Dxgi_Common"] }
winit = "0.29"
