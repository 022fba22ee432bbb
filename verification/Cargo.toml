[package]
name = "kyber_launcher"
version = "0.1.0"
edition = "2021"
publish = false

[dependencies]
regex = "1"
anyhow = "1"
log = "0.4"
lazy_static = "1"
tokio = { version = "1", features = ["full"] }
sysinfo = "0.29"
flutter_rust_bridge = "2"
flutter_logger = "*"
windows = { version = "*", features = ["Win32_Foundation", "Win32_System_Diagnostics_Debug", "Win32_System_Threading"] }
