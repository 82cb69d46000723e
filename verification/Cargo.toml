[package]
name = "threeddit"
version = "0.1.0"
edition = "2021"
publish = false

[dependencies]
cgmath = "=0.18.0"
fps_counter = "*"
freetype-rs = "=0.38.0"
gfx = "=0.18.3"
gfx_device_gl = "=0.16.2"
piston = "=1.0.0"
pistoncore-glfw_window = "=0.83.0"
time = "=0.3.55"
