[package]
name = "dual_context"
version = "0.1.0"
edition = "2021"
publish = false

[dependencies]
glow = "0.11"
glutin = "0.30"
raw-window-handle = "0.5"
winit = "0.27"
