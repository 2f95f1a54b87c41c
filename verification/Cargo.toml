[package]
name = "rust_vrender"
version = "0.1.0"
edition = "2021"
publish = false

[dependencies]
ash = "0.37"
ash-window = "0.12"
raw-window-handle = "0.5"
winit = "0.28"
tokio = { version = "1", features = ["rt-multi-thread", "macros", "net", "io-util"] }
serde = { version = "1", features = ["derive"] }
serde_json = "1"
toml = "0.8"
x11rb = "0.13"
vulkano = "0.33"
vulkano-win = "0.33"
