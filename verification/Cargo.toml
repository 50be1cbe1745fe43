[package]
name = "sergeant"
version = "0.1.0"
edition = "2021"
publish = false

[dependencies]
anyhow = "1"
base64 = "0.22"
clap = { version = "4", features = ["derive", "env"] }
directories = "5"
hex-rgb = "*"
image = { version = "0.24", default-features = false, features = ["png"] }
irc = { version = "1", default-features = false }
log = "0.4"
serde = { version = "1", features = ["derive"] }
serde_json = "1"
tungstenite = "0.21"
ureq = { version = "2", default-features = false, features = ["json"] }
