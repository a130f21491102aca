[package]
name = "vct"
version = "0.1.0"
edition = "2021"
publish = false

[dependencies]
bytemuck = { version = "=1.25.2", features = ["derive"] }
dashmap = "=5.5.3"
gltf = { version = "=1.4.1", default-features = false, features = ["import", "utils", "KHR_lights_punctual"] }
image = { version = "=0.24.9", default-features = false, features = ["png", "jpeg"] }
nalgebra-glm = "=0.18.0"
scoped-pool = "=1.0.0"
wgpu = { version = "=0.19.4", default-features = false, features = ["wgsl"] }
