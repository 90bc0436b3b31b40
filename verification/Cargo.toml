[package]
name = "ventana"
version = "0.1.0"
edition = "2021"
publish = false

[dependencies]
crossbeam-channel = "=0.5.17"
log = "=0.4.35"
thiserror = "=2.0.21"
wayland-client = "=0.31.15"
x11rb = { version = "=0.13.2", features = ["randr", "resource_manager"] }

[dev-dependencies]
xkbcommon-dl = "=0.4.2"
