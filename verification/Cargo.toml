[package]
name = "vkbase"
version = "0.1.0"
edition = "2021"
publish = false

[dependencies]
smallvec = "0.6"
ash = "0.29"
winit = "0.19"
gltf = "0.13"
vk-mem = "0.1"
shaderc = "0.6"
gli-rs = "*"
rusttype = "0.7"
nalgebra = "0.18"
vek = "0.9"
num = "0.2"
bincode = "1"
serde = "1"
serde_derive = "1"
memoffset = "0.5"
failure = "0.1"
failure_derive = "0.1"
