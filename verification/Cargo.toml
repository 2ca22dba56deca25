[package]
name = "mcpixel"
version = "0.1.0"
edition = "2021"
publish = false

[dependencies]
color_space = "=0.5.4"
image = "=0.25.10"
mcdata = "=0.4.0"
rayon = "=1.12.0"
rustmatica = "=0.5.2"
