[package]
name = "htpc_overlay"
version = "0.1.0"
edition = "2021"
publish = false

[dependencies]
cec-rs = "=12.0.2"
egui = "0.33.3"
egui_flex = "0.5.0"
ehttp = "=0.7.2"
gilrs = "=0.11.2"
http = "=1.5.0"
quick-xml = { version = "=0.42.0", features = ["serialize"] }
serde = { version = "=1.0.229", features = ["derive"] }
serde_json = "=1.0.154"
url = "=2.5.8"
