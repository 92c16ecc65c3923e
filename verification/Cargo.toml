[package]
name = "play"
version = "0.1.0"
edition = "2021"
publish = false

[dependencies]
rand = "0.8"
clap = { version = "4", default-features = false, features = ["std", "help", "derive"] }
crossterm = "=0.27.0"
image = { version = "=0.24.9", default-features = false, features = ["jpeg", "png"] }
libmpv = "=2.0.1"
ratatui = "=0.26.3"
ratatui-image = "=1.0.5"
serde = { version = "1", features = ["derive"] }
serde_json = "1"
souvlaki = "=0.7.3"
tui-input = "=0.10.1"
url = "=2.3.1"
xdg = "=2.5.2"
