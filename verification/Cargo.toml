[package]
name = "aoe2_archiver"
version = "0.1.0"
edition = "2021"
publish = false

[dependencies]
aes-gcm = "=0.11.1"
dirs = "=7.0.0"
fs2 = "=0.4.3"
fs_extra = "=1.3.0"
reqwest = { version = "=0.13.5", features = ["blocking"] }
rust-ini = "=0.21.3"
serde = { version = "=1.0.229", features = ["derive"] }
serde_json = "=1.0.154"
sevenz-rust2 = "=0.24.1"
toml = "=1.1.8"
winreg = "*"
zip = "=9.0.5"
