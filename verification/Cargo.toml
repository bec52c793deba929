[package]
name = "gpu_matmul"
version = "0.1.0"
edition = "2021"
publish = false

[dependencies]
anyhow = "=1.0.104"
bytemuck = { version = "=1.25.2", features = ["derive"] }
tokio = { version = "=1.54.1", features = ["macros", "rt-multi-thread", "sync"] }
wgpu = { version = "=26.0.1", features = ["noop"] }
