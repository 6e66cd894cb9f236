[package]
name = "open_clip_inference"
version = "0.1.0"
edition = "2021"
publish = false

[dependencies]
ort = { version = "=2.0.0-rc.15", default-features = false, features = ["std", "ndarray", "load-dynamic"] }
ndarray = { version = "=0.17.2", features = ["rayon"] }
image = { version = "=0.25.10", default-features = false, features = ["png", "jpeg"] }
fast_image_resize = "=5.5.0"
hf-hub = "=1.0.0"
bon = "=3.10.3"
rayon = "=1.12.0"
tracing = "=0.1.44"
serde = { version = "=1.0.229", features = ["derive"] }
serde_json = "=1.0.154"
