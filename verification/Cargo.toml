[package]
name = "secure_safe"
version = "0.1.0"
edition = "2021"
publish = false

[dependencies]
chacha20poly1305 = "0.10"
argon2 = "0.5"
rand_core = { version = "0.6", features = ["getrandom"] }
blake3 = "1"
zstd = "0.13"
zeroize = "1"
serde = { version = "1", features = ["derive"] }
toml = "0.5"
rpassword = "7"
crossterm = "0.28"
inotify = "0.11"
libc = "0.2"
owo-colors = "4"
anyhow = "1"
obfstr = "0.4"
