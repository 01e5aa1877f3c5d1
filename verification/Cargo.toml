[package]
name = "egui_elements"
version = "0.1.0"
edition = "2021"
publish = false

[dependencies]
egui = "*"
egui-elegance = "*"
secure-types = "*"
rqrr-zeroize = "*"
enigo = "*"
xcap = "*"
serde = { version = "1", features = ["derive"] }
