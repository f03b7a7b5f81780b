[package]
name = "gltfgen"
version = "0.1.0"
edition = "2021"
publish = false

[dependencies]
base64 = "*"
bytemuck = "1"
genmesh = "*"
glam = { version = "*", features = ["bytemuck"] }
rand = "0.8"
rand_pcg = "0.3"
serde = { version = "1", features = ["derive"] }
serde_json = "1"
serde_yaml = "*"
