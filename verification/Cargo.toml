[package]
name = "nodle_usd"
version = "0.2.0"
edition = "2021"
publish = false

[dependencies]
bytemuck = { version = "=1.25.2", features = ["derive"] }
chrono = { version = "*", default-features = false, features = ["std"] }
glam = "=0.34.1"
once_cell = "=1.21.4"
uuid = { version = "=1.29.0", features = ["v4"] }
