[package]
name = "autoclicker"
version = "0.1.0"
edition = "2021"
publish = false

[dependencies]
rand = "0.8"
eframe = { version = "0.27", default-features = false, features = ["glow", "default_fonts"] }
x11 = { version = "2.21", features = ["xlib"] }
libxdo-sys = "0.11"
winapi = { version = "0.3", features = ["winuser", "minwindef", "windef"] }
