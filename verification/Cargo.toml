[package]
name = "charlie"
version = "0.1.0"
edition = "2021"
publish = false

[dependencies]
rand = "0.8"
xcursor = "0.3"
x11rb = "0.10"
slog = "2"
slog-term = "2"
slog-async = "2"
slog-scope = "4"
slog-stdlog = "4"
thiserror = "1"
smithay = { version = "0.3", default-features = false, features = ["wayland_frontend"] }
