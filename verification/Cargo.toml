[package]
name = "locale_lookup"
version = "0.1.0"
edition = "2021"
publish = false

[dependencies]
toml = "0.8"
sys-locale = "0.3"
log = "0.4"
windows-sys = { version = "0.61", features = ["Win32_System_Console"] }
