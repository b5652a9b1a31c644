[package]
name = "xwm_bridge"
version = "0.1.0"
edition = "2021"
publish = false

[dependencies]
serde = { version = "*", features = ["derive"] }
serde_json = "*"
tracing = "*"
smithay = { version = "*", default-features = false, features = ["desktop", "wayland_frontend", "xwayland"] }
