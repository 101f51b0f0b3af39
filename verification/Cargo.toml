[package]
name = "git_credential_keepassxc"
version = "0.1.0"
edition = "2021"
publish = false

[dependencies]
anyhow = "1"
base64 = "*"
clap = "*"
crypto_box = "*"
directories-next = "*"
notify-rust = "*"
prctl = "*"
serde = { version = "1", features = ["derive"] }
serde_json = "1"
slog = "*"
slog-term = "*"
sysinfo = "*"
