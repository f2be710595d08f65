[package]
name = "protoncode"
version = "0.1.0"
edition = "2021"
publish = false

[dependencies]
anyhow = "1"
arboard = { version = "3", default-features = false }
base64 = "0.22"
dirs = "6"
image = { version = "0.25", default-features = false, features = ["png"] }
keyring = { version = "3", features = ["linux-native", "windows-native"] }
regex = "1"
serde = { version = "1", features = ["derive"] }
serde_json = "1"
tao = "*"
time = { version = "0.3", features = ["formatting", "parsing", "serde"] }
tracing = "0.1"
tracing-subscriber = { version = "0.3", features = ["env-filter"] }
tray-icon = "*"
winreg = "*"
wry = "*"
