[package]
name = "particle_sort"
version = "0.1.0"
edition = "2021"
publish = false

[dependencies]
nannou = { version = "=0.18.1", features = ["spirv"] }
rand = "=0.7.3"
shaderc = "=0.10.1"
glsl-layout = "=0.5.0"
