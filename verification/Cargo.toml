[package]
name = "manifold3d"
version = "0.1.0"
edition = "2021"
publish = false

[dependencies]
manifold3d-sys = "=0.0.7"
thiserror = "=2.0.21"
