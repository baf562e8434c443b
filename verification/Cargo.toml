[package]
name = "dvup"
version = "0.1.0"
edition = "2021"
publish = false

[dependencies]
arboard = { version = "=3.7.0", default-features = false }
crossterm = "=0.28.1"
fs2 = "=0.4.3"
ratatui = { version = "=0.29.0", features = ["unstable-rendered-line-info"] }
serde = { version = "=1.0.229", features = ["derive"] }
taplo = { version = "=0.14.0", default-features = false }
toml = "=1.1.8"
ureq = { version = "=3.5.1", features = ["json"] }
zeroize = "=1.9.1"
