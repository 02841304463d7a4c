[package]
name = "pixel_pipeline"
version = "0.1.0"
edition = "2021"
publish = false

[dependencies]
photon-rs = "*"

[dev-dependencies]
image = "*"
