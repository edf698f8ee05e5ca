[package]
name = "drogue_device"
version = "0.1.0"
edition = "2021"
publish = false

[dependencies]
heapless = "=0.7.17"
uuid = "=1.27.0"
serde = { version = "=1.0.229", features = ["derive"] }
postcard = "=1.1.3"
p256 = { version = "*", default-features = false, features = ["arithmetic"] }
