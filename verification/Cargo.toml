[package]
name = "modelz"
version = "0.1.0"
edition = "2021"
publish = false

[dependencies]
gltf = "1"
ply-rs = "0.1"
stl_io = "*"
tobj = "4"
