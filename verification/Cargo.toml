[package]
name = "wgpu_gui_bridge"
version = "0.1.0"
edition = "2021"
publish = false

[dependencies]
url = "2"
wgpu = { version = "29", features = ["noop"] }
dpi = "0.1"
image = { version = "0.25", default-features = false }
winit = "0.30"
pollster = "0.4"
thiserror = "2"
euclid = "0.22"
raw-window-handle = "0.6"
surfman = "*"
gleam = "*"
glow = "*"
rustls = { version = "0.23", default-features = false, features = ["std", "aws_lc_rs"] }
