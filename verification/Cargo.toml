[package]
name = "glyph_cache"
version = "0.1.0"
edition = "2021"
publish = false

[dependencies]
freetype-rs = "*"
piston2d-opengl_graphics = "=0.89.0"
