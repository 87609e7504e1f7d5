[package]
name = "cube_renderer"
version = "0.1.0"
edition = "2021"
publish = false

[dependencies]
cgmath = "0.16"
gl = "0.11"
glutin = "0.19"
