[package]
name = "remote_bind"
version = "0.1.0"
edition = "2021"
publish = false

[dependencies]
csv = "*"
rand = "*"
serde = { version = "*", features = ["derive"] }
serde_json = "*"
serialport = { version = "*", default-features = false }
webbrowser = "*"
enigo = "*"
