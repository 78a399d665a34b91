[package]
name = "kiosk"
version = "0.1.0"
edition = "2021"
publish = false

[dependencies]
anyhow = "1"
clap = { version = "4", features = ["derive"] }
config = { version = "*", features = ["preserve_order"] }
evdev = "*"
indexmap = { version = "2", features = ["serde"] }
libxdo = "*"
log = "0.4"
rumqttc = "*"
sha2 = "0.10"
stderrlog = "*"
xcap = "*"
