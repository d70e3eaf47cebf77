[package]
name = "threedtest"
version = "1.4.0"
edition = "2021"
publish = false

[dependencies]
winit = { version = "=0.29.15", default-features = false, features = ["rwh_06", "x11"] }
egui = "=0.27.2"
egui-winit = { version = "=0.27.2", default-features = false, features = ["x11", "links"] }
glam = "=0.25.0"
bytemuck = { version = "=1.25.2", features = ["derive"] }
image = { version = "=0.24.9", default-features = false, features = ["png"] }
pollster = "=0.3.0"
log = "=0.4.35"
env_logger = { version = "=0.11.11", default-features = false }
chrono = { version = "=0.4.45", default-features = false, features = ["clock"] }
