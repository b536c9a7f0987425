[package]
name = "doxle-core"
version = "0.1.0"
edition = "2021"
publish = false

[dependencies]
image = { version = "0.25", default-features = false, features = ["png"] }
winit = { version = "0.30", default-features = false, features = ["x11"] }
