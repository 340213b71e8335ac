[package]
name = "idesk"
version = "0.1.0"
edition = "2021"
publish = false

[dependencies]
rand = "=0.9.5"
dashmap = "=6.2.1"
serde = { version = "=1.0.229", features = ["derive"] }
serde_json = "=1.0.154"
openh264 = "=0.9.9"
tokio = { version = "=1.54.1", features = ["rt-multi-thread", "macros", "sync", "time", "net"] }
tokio-tungstenite = "=0.30.0"
futures-util = "=0.3.34"
thiserror = "=2.0.21"
tracing = "=0.1.44"
tracing-subscriber = { version = "=0.3.23", features = ["env-filter"] }
bytes = "=1.12.1"
actix-web = "=4.18.1"
actix-ws = "=0.4.0"
image = { version = "=0.25.10", default-features = false, features = ["png"] }
x11rb = { version = "=0.13.2", features = ["shm"] }
libc = "=0.2.191"
enigo = "=0.6.1"
arboard = { version = "=3.7.0", default-features = false }
webrtc = "=0.12.0"
