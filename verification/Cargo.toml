[package]
name = "grim"
version = "0.1.0"
edition = "2021"
publish = false

[dependencies]
url = "=2.5.8"
egui = "=0.37.0"
lazy_static = "=1.5.1"
parking_lot = "=0.12.5"
qrcodegen = "=1.8.0"
ur = "=0.5.2"
rqrr = { version = "=0.11.0", default-features = false }
image = { version = "=0.25.10", default-features = false, features = ["jpeg", "png"] }
gif = "=0.14.2"
qrcode = { version = "=0.14.1", default-features = false, features = ["image"] }
serde = { version = "1", features = ["derive"] }
serde_json = "1"
sys-locale = "*"
pnet = "*"
