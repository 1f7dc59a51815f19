[package]
name = "font_loader"
version = "0.1.0"
edition = "2021"
publish = false

[dependencies]
anyhow = "=1.0.104"
log = "=0.4.35"
windows = { version = "=0.61.3", features = ["Win32_Foundation", "Win32_Graphics_DirectWrite"] }
windows-result = "=0.3.4"
