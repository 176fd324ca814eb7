[package]
name = "workflow_visualizer"
version = "0.1.0"
edition = "2021"
publish = false

[dependencies]
serde = { version = "1", features = ["derive"] }
serde_json = "1"
bytemuck = { version = "1", features = ["derive"] }
bevy_ecs = "0.11"
winit = "0.28"
arboard = { version = "3", default-features = false }
