[package]
name = "shape_render"
version = "0.1.0"
edition = "2021"
publish = false

[dependencies]
image = { version = "=0.25.10", default-features = false }
fast_image_resize = { version = "=5.5.0", features = ["image"] }
bytemuck = "=1.25.2"
wgpu = "=25.0.2"
wgpu_dyn_buffer = "=3.0.0"
