[package]
name = "emulated_camera"
version = "0.1.0"
edition = "2021"
publish = false

[dependencies]
libc = "0.2"
log = "0.4"
v4l2r = { version = "=0.0.7", features = ["arch64"] }
virtio-media = "=0.0.8"
