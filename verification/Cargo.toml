[package]
name = "mandelbrot_gpu"
version = "0.1.0"
edition = "2021"
publish = false

[dependencies]
bytemuck = { version = "1", features = ["derive"] }
wgpu = "0.14"
winit = "0.27"
