[package]
name = "waycore"
version = "0.1.0"
edition = "2021"
publish = false

[dependencies]
gl = "=0.14.0"
khronos-egl = { version = "=6.0.0", features = ["dynamic"] }
pathfinder_canvas = "=0.5.0"
pathfinder_color = "=0.5.0"
pathfinder_geometry = "=0.5.1"
pathfinder_gl = "=0.5.0"
pathfinder_renderer = "=0.5.0"
pathfinder_resources = "=0.5.0"
wayland-client = { version = "=0.29.5", features = ["dlopen"] }
wayland-egl = "=0.29.5"
