[package]
name = "server_gui"
version = "0.1.0"
edition = "2021"
publish = false

[dependencies]
egui = "=0.31.1"
eframe = { version = "=0.31.1", default-features = false, features = ["glow", "x11", "default_fonts"] }
tokio = { version = "=1.54.1", default-features = false, features = ["sync"] }
tracing = "=0.1.44"
