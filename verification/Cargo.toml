[package]
name = "voxel_mesh"
version = "0.1.0"
edition = "2021"
publish = false

[dependencies]
bytemuck = { version = "1", features = ["derive", "extern_crate_alloc"] }
color-eyre = { version = "0.6", default-features = false }
dashmap = "5"
glam = { version = "0.25", features = ["bytemuck"] }
image = { version = "0.24", default-features = false, features = ["png"] }
nalgebra = { version = "0.32", features = ["convert-bytemuck"] }
once_cell = "1"
tobj = "4"
tokio = { version = "1", features = ["fs", "macros", "rt-multi-thread"] }
tracing = "0.1"
