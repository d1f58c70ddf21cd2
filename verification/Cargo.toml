[package]
name = "wgpaper"
version = "0.1.0"
edition = "2021"
publish = false

[dependencies]
rand = "*"
image = { version = "*", default-features = false, features = ["png", "jpeg", "gif", "bmp", "webp"] }
csscolorparser = { version = "*", features = ["serde"] }
wgpu = { version = "*", features = ["spirv"] }
shellexpand = "*"
anyhow = "*"
thiserror = "*"
log = "*"
env_logger = "*"
serde = { version = "*", features = ["derive"] }
serde_json = "*"
calloop = "*"
smithay-client-toolkit = { version = "*", default-features = false, features = ["calloop"] }
wayland-client = "*"
wayland-backend = { version = "*", features = ["client_system", "dlopen"] }
raw-window-handle = "*"
pollster = "*"
bytemuck = { version = "*", features = ["derive"] }
keyframe = "*"
const_format = "*"
strum_macros = "*"
actix-web = { version = "*", default-features = false, features = ["macros"] }
tokio = { version = "*", features = ["rt"] }
signal-hook = "*"
dotenvy = "*"
