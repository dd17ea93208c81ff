[package]
name = "eframe"
version = "0.1.0"
edition = "2021"
publish = false

[dependencies]
egui = "=0.37.0"
egui_glow = { version = "=0.37.0", default-features = false }
egui-wgpu = { version = "=0.37.0", default-features = false }
glow = "=0.17.0"
winit = { version = "=0.30.13", default-features = false, features = ["x11", "rwh_06"] }
raw-window-handle = "=0.6.2"
ron = "=0.12.3"
serde = { version = "=1.0.229", features = ["derive"] }
log = "=0.4.35"
profiling = "=1.0.18"
static_assertions = "=1.1.0"
