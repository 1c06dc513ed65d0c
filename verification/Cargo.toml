[package]
name = "welding"
version = "0.14.0"
edition = "2021"
publish = false

[dependencies]
base64 = "=0.22.1"
serde_json = "=1.0.154"
libc = "=0.2.191"
log = "=0.4.35"
env_logger = { version = "=0.11.11", default-features = false }
pollster = "=0.4.0"
dpi = "=0.1.2"
winit = { version = "=0.30.13", default-features = false, features = ["x11", "rwh_06"] }
wgpu = { version = "=30.0.1", default-features = false, features = ["vulkan", "wgsl", "std"] }
cef = { version = "=151.8.1", default-features = false }
grafting = { version = "=0.5.1", default-features = false, features = ["wgpu-30"] }
