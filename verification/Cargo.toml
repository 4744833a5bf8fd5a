[package]
name = "device_setup"
version = "0.1.0"
edition = "2021"
publish = false

[dependencies]
gfx-hal = "0.4"
gfx-backend-vulkan = "0.4"
winit = "0.20"
