[package]
name = "lerp_lines"
version = "0.1.0"
edition = "2021"

[dependencies]
rayon = "*"
rustc_apfloat = "*"
