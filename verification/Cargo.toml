[package]
name = "convex_polygon_intersection"
version = "0.1.0"
edition = "2021"
publish = false

[dependencies]
bytemuck = { version = "1", features = ["derive"] }
env_logger = { version = "0.10", default-features = false }
glam = "0.27"
log = "0.4"
rand = "0.8"
