[package]
name = "ferrux_viewport"
version = "0.1.0"
edition = "2021"
publish = false

[dependencies]
line_drawing = "*"
bresenham_zip = "*"
pixels = "0.9"
winit = "0.26"
