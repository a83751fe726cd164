[package]
name = "watchmedo"
version = "0.1.0"
edition = "2021"
publish = false

[dependencies]
auto-launch = "0.5"
axum = "0.7"
base64 = "0.21"
chrono = "0.4"
hostname = "0.3"
image = "0.24"
reqwest = { version = "0.11", features = ["json"] }
serde = { version = "1", features = ["derive"] }
serde_json = "1"
sysinfo = "0.30"
tokio = { version = "1", features = ["full"] }
tower-http = { version = "0.5", features = ["cors"] }
windows = { version = "0.52", features = ["Win32_Foundation", "Win32_UI_WindowsAndMessaging", "Media_Control", "Foundation", "Storage_Streams"] }
