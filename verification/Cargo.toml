[package]
name = "svgview"
version = "0.1.0"
edition = "2021"
publish = false

[dependencies]
anyhow = "1"
log = "0.4"
notify = "4"
pixels = "0.9"
pretty_env_logger = "0.4"
resvg = "0.22"
tiny-skia = "0.6"
usvg = "0.22"
winit = "0.26"
winit_input_helper = "0.11"
