[package]
name = "app_scaffold"
version = "0.1.0"
edition = "2021"
publish = false

[dependencies]
piston = "*"
piston2d-graphics = "*"
piston2d-gfx_graphics = "*"
pistoncore-glutin_window = "*"
gfx = "*"
gfx_device_gl = "*"
rusttype = "*"
log = "*"
