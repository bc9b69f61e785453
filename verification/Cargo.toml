[package]
name = "waybridge"
version = "0.1.0"
edition = "2021"
publish = false

[dependencies]
smithay-client-toolkit = "*"
wayland-client = "*"
wayland-backend = "*"
wayland-protocols = "*"

[dev-dependencies]
xkeysym = "*"
