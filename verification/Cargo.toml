[package]
name = "cosmic_launcher"
version = "0.1.0"
edition = "2021"
publish = false

[dependencies]
async-stream = "=0.3.6"
clap = { version = "=4.6.7", features = ["derive"] }
freedesktop-desktop-entry = "0.5"
futures = "=0.3.34"
nix = "=0.26.4"
pop-launcher = "=1.2.7"
serde = { version = "=1.0.229", features = ["derive"] }
serde_json = "=1.0.154"
shlex = "=1.3.0"
tokio = { version = "=1.54.1", features = ["full"] }
tracing = "=0.1.44"
tracing-journald = "=0.3.2"
tracing-subscriber = { version = "=0.3.23", features = ["env-filter"] }
unicode-truncate = "=1.1.0"
unicode-width = "=0.1.14"
xdg = "=2.5.2"
zbus = "=5.19.0"
