[package]
name = "hv_altar"
version = "0.1.0"
edition = "2021"
publish = false

[dependencies]
anyhow = "1"
egui = "0.15"
luminance = "0.44"
nalgebra = "0.29"
proc-macro2 = "=1.0.107"
quote = "=1.0.47"
syn = { version = "=1.0.109", features = ["full", "extra-traits"] }
