[package]
name = "piston2d"
version = "0.1.5"
edition = "2021"
publish = false

[dependencies]
piston = "0.53"
pistoncore-glutin_window = "0.69"
piston2d-graphics = "0.40"
piston2d-opengl_graphics = "0.78"
pyo3 = { version = "0.14", features = ["extension-module"] }
