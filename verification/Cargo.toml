[package]
name = "amdgpu_probe"
version = "0.1.0"
edition = "2021"
publish = false

[dependencies]
libdrm_amdgpu_sys = { version = "=0.9.0", default-features = false, features = ["dynamic_loading"] }
