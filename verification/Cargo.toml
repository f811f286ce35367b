[package]
name = "cuda_graph"
version = "0.1.0"
edition = "2021"
publish = false

[dependencies]
cuda-bindings = "*"
