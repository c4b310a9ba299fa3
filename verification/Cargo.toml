[package]
name = "settings_audit"
version = "0.1.0"
edition = "2021"
publish = false

[dependencies]
forensic-adb = "*"
anyhow = "1"
log = "0.4"
