[package]
name = "nes_emu"
version = "0.1.0"
edition = "2021"
publish = false

[dependencies]
bytemuck = "*"
cpal = "*"
futures = "*"
ringbuf = "*"
wgpu = "*"
winit = "*"
