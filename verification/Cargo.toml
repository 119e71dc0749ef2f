[package]
name = "cslview"
version = "0.1.0"
edition = "2021"
publish = false

[dependencies]
anyhow = "=1.0.104"
base64 = "=0.22.1"
clap = { version = "=4.6.7", features = ["derive"] }
eframe = { version = "=0.37.0", default-features = false, features = ["default_fonts", "glow", "x11"] }
quick-xml = "=0.41.0"
resvg = { version = "=0.45.1", default-features = false, features = ["text", "system-fonts"] }
rfd = "=0.17.2"
serde = { version = "=1.0.229", features = ["derive"] }
svg2pdf = "=0.13.0"
toml = "=1.1.8"
