[package]
name = "syphon"
version = "0.4.0"
edition = "2021"
publish = false

[dependencies]
bytemuck = "=1.25.2"
log = "=0.4.35"
wgpu = "=25.0.2"
wgpu-hal = "=25.0.2"
metal = "=0.31.0"
objc = "=0.2.7"
objc_id = "=0.1.1"
cocoa = "=0.27.0"
core-foundation = "=0.10.1"
io-surface = "=0.16.1"
