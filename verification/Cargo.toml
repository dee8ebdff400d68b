[package]
name = "vulkan_bridge"
version = "0.1.0"
edition = "2021"
publish = false

[dependencies]
anyhow = "1"
knuffel = "3.2"
serde_json = "1"
smithay = { version = "*", default-features = false, features = ["backend_drm", "backend_gbm", "backend_egl", "backend_session", "renderer_gl", "renderer_multi"] }
