[package]
name = "wezterm"
version = "0.1.0"
edition = "2021"
publish = false

[dependencies]
libc = "0.2"
anyhow = "1"
serde = { version = "1", features = ["derive"] }
smithay-client-toolkit = { version = "0.19", default-features = false }
wayland-backend = "0.3"
ssh2 = "0.9"
libssh-rs = "0.3"
