[package]
name = "technoir"
version = "0.1.0"
edition = "2021"
publish = false

[dependencies]
naga = { version = "=30.0.1", features = ["wgsl-in", "wgsl-out"] }
semver = "=1.0.28"
rapidhash = "=4.5.1"
rand = "=0.10.3"
serde = { version = "=1.0.229", features = ["derive"] }
toml = "=1.1.8"
cbor2 = "=1.1.6"
zip = { version = "=9.2.2", default-features = false, features = ["deflate", "zstd"] }
image = { version = "=0.25.10", default-features = false, features = ["png", "jpeg"] }
mlua = { version = "=0.12.2", features = ["luau"] }
thiserror = "=2.0.21"
wgpu = "*"
vello = "*"
glyphon = "*"
wasapi = "*"
smol = "*"
windows-sys = { version = "*", features = ["Win32_Foundation", "Win32_UI_WindowsAndMessaging", "Win32_UI_Shell", "Win32_Graphics_Gdi", "Win32_Devices_Display", "Win32_System_LibraryLoader", "Win32_System_Threading", "Win32_System_Memory", "Win32_System_Com"] }
raw-window-handle = "*"
glam = "*"
bytemuck = { version = "*", features = ["derive"] }
chrono = "*"
rustfft = "*"
