[package]
name = "nengine"
version = "0.1.0"
edition = "2021"
publish = false

[dependencies]
mlua = { version = "*", features = ["lua54", "vendored"] }
rquickjs = "*"
glfw = "*"
gl = "*"
nalgebra = "*"
image = "*"
rodio = "*"
rusttype = "*"
tobj = "*"
goth-gltf = "*"
colorize = "*"
fancy-regex = "*"
regex = "*"
