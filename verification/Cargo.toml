[package]
name = "qnmdsol"
version = "0.1.0"
edition = "2021"
publish = false

[dependencies]
anyhow = "=1.0.104"
eframe = { version = "0.27", default-features = false, features = ["default_fonts", "glow"] }
egui_plot = "0.27"
env_logger = "=0.11.11"
image = { version = "=0.24.9", default-features = false, features = ["png"] }
libloading = "0.8"
once_cell = "1"
plotters = { version = "=0.3.7", default-features = false, features = ["bitmap_backend", "line_series"] }
rustfft = "=6.4.1"
serde = { version = "1", features = ["derive"] }
serde_json = "1"
serialport = { version = "4", default-features = false }
thiserror = "1"
