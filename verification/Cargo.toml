[package]
name = "kiln"
version = "0.1.0"
edition = "2021"
publish = false

[dependencies]
objc2 = "*"
objc2-app-kit = "*"
objc2-core-foundation = "*"
objc2-core-graphics = "*"
objc2-foundation = "*"
objc2-metal = "*"
objc2-metal-kit = "*"
objc2-quartz-core = "*"
raw-window-handle = "*"
winit = "*"
zerocopy = { version = "*", features = ["derive"] }
