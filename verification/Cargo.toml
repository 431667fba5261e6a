[package]
name = "cpu_temp_tray"
version = "0.1.0"
edition = "2021"
publish = false

[dependencies]
ab_glyph = "0.2"
image = { version = "0.25", default-features = false }
imageproc = { version = "0.25", default-features = false }
objc2-core-foundation = "*"
sysinfo = { version = "*", default-features = false, features = ["component"] }
tao = "*"
tray-icon = "*"
