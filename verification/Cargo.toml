[package]
name = "nes_bundler"
version = "0.1.0"
edition = "2021"
publish = false

[dependencies]
anyhow = "=1.0.104"
base64 = "=0.22.1"
egui = "=0.37.0"
env_logger = "=0.11.11"
futures = "=0.3.34"
futures-timer = "3"
ggrs = "*"
log = "=0.4.35"
postcard = { version = "1", features = ["alloc"] }
puffin = "*"
ringbuf = "=0.4.8"
sdl3 = "*"
serde = { version = "=1.0.229", features = ["derive"] }
serde_yaml = "=0.9.34"
tetanes-core = "*"
thingbuf = "=0.1.6"
tokio = { version = "=1.54.1", features = ["rt", "sync", "time"] }
uuid = { version = "=1.29.0", features = ["v4"] }
winit = "0.30"
