[package]
name = "midori_core"
version = "0.1.0"
edition = "2021"
publish = false

[dependencies]
glam = "*"
gltf = "*"
image = { version = "0.25", default-features = false, features = ["png"] }
serde = { version = "1", features = ["derive"] }
serde_json = "1"
toml = "*"
