[package]
name = "remotecontrol"
version = "0.1.0"
edition = "2021"
publish = false

[dependencies]
dashmap = "6"
rand = "0.8"
mac_address = "1"
base64 = "0.22"
image = { version = "0.25", default-features = false, features = ["jpeg"] }
rayon = "1"
num_cpus = "1"
openh264 = "0.8"
yuv = "0.8"
serde = { version = "1", features = ["derive"] }
serde_json = "1"
serde_yaml = "0.9"
tokio = { version = "1", features = ["full"] }
tokio-tungstenite = "0.24"
futures-util = "0.3"
warp = "0.3"
url = "2"
anyhow = "1"
log = "0.4"
env_logger = "0.11"
clap = { version = "4", features = ["derive"] }
async-trait = "0.1"
bytes = "1"
stun-rs = "0.1"
turn = "0.9"
webrtc-util = "0.10"
webrtc = "0.12"
scrap = "0.5"
x11 = { version = "2", features = ["xlib", "xtest"] }
