[package]
name = "web0"
version = "0.1.0"
edition = "2021"
publish = false

[dependencies]
eframe = "=0.16.0"
ehttp = "=0.2.0"
epi = "=0.16.0"
image = { version = "=0.23.14", default-features = false, features = ["jpeg", "png"] }
serde = { version = "=1.0.229", features = ["derive"] }
ureq = "=2.12.1"
