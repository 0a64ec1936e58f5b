[package]
name = "macwinshare"
version = "0.1.0"
edition = "2021"
publish = false

[dependencies]
bincode = "1.3"
sha2 = "0.10"
uuid = { version = "1", features = ["v4"] }
hostname = "0.4"
dirs = "5"
serde = { version = "1", features = ["derive"] }
serde_json = "1"
thiserror = "1"
tokio = { version = "1", features = ["full"] }
rustls = { version = "0.23", default-features = false, features = ["ring", "std", "tls12", "logging"] }
tokio-rustls = { version = "0.26", default-features = false, features = ["ring", "tls12", "logging"] }
rustls-pemfile = "2"
rcgen = "0.13"
mdns-sd = "0.11"
local-ip-address = "0.6"
arboard = "3"
tracing = "0.1"
tracing-subscriber = { version = "0.3", features = ["env-filter"] }
async-trait = "0.1"
core-foundation = "0.10"
core-graphics = "0.24"
windows = { version = "0.61", features = ["Win32_Foundation", "Win32_Graphics_Gdi", "Win32_UI_Input_KeyboardAndMouse", "Win32_UI_WindowsAndMessaging"] }
