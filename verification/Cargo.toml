[package]
name = "slint_shell"
version = "0.1.0"
edition = "2021"
publish = false

[dependencies]
smithay-client-toolkit = { version = "*", default-features = false, features = ["calloop", "xkbcommon"] }
wayland-client = "*"
calloop = "*"
calloop-wayland-source = "*"
bytemuck = { version = "1", features = ["derive"] }
xkeysym = "*"
raw-window-handle = "0.6"
