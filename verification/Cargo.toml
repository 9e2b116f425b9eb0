[package]
name = "fourier"
version = "0.1.0"
edition = "2021"
publish = false

[dependencies]
num-complex = "0.4"
num-traits = "0.2"
bytemuck = "1"
libm = "0.2"
rand = "0.8"
image = { version = "0.24", default-features = false, features = ["png", "jpeg"] }
