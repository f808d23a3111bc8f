[package]
name = "dma_buf"
version = "0.1.0"
edition = "2021"
publish = false

[dependencies]
bincode = "1.3.3"
png = "0.17"
sendfd = "0.4"
log = "0.4"
env_logger = "0.10"
wgpu = "0.19"
wgpu-hal = { version = "0.19", features = ["gles"] }
glow = "0.13"
khronos-egl = { version = "6", features = ["dynamic"] }
pollster = "0.3"
bytemuck = { version = "1", features = ["derive"] }
cgmath = "0.18"
flume = "0.11"
