[package]
name = "voyage_texture_converter"
version = "0.1.0"
edition = "2021"
publish = false

[dependencies]
image = "=0.25.10"
ddsfile = "=0.6.0"
intel_tex = "=0.1.4"
