[package]
name = "pinax"
version = "0.1.0"
edition = "2021"
publish = false

[dependencies]
calloop = "*"
calloop-notify = "*"
calloop-wayland-source = "*"
configory = { version = "*", features = ["docgen"] }
dirs = "*"
glutin = { version = "*", default-features = false, features = ["egl", "wayland"] }
raw-window-handle = "*"
serde = { version = "1", features = ["derive"] }
skia-safe = { version = "*", features = ["gl", "textlayout"] }
smithay-client-toolkit = { version = "*", default-features = false, features = ["calloop", "xkbcommon"] }
tempfile = "3"
thiserror = "*"
tracing = "0.1"
tracing-subscriber = { version = "0.3", features = ["env-filter"] }
xkeysym = "*"
