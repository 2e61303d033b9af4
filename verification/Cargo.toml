[package]
name = "game_of_life"
version = "0.1.0"
edition = "2021"
publish = false

[dependencies]
anymap = "=0.12.1"
arrayvec = "=0.4.12"
env_logger = "=0.6.2"
failure = "=0.1.8"
gfx-backend-vulkan = { version = "=0.3.3", features = ["winit"] }
gfx-hal = "=0.3.1"
image = "=0.21.3"
imgui = "=0.1.0"
imgui-winit-support = "=0.1.0"
log = "=0.4.34"
memoffset = "=0.5.6"
rodio = "=0.9.0"
serde = { version = "=1.0.229", features = ["derive"] }
serde_json = "=1.0.154"
shaderc = "=0.5.1"
winit = "=0.19.5"
