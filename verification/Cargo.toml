[package]
name = "kscope"
version = "0.1.0"
edition = "2021"
publish = false

[dependencies]
snow = { version = "=0.9.6", features = ["risky-raw-split"] }
chacha20poly1305 = "=0.10.1"
blake3 = "=1.8.7"
x25519-dalek = { version = "=2.0.1", features = ["static_secrets", "getrandom"] }
rand = "=0.8.8"
rand_core = { version = "=0.6.4", features = ["getrandom"] }
base64 = "=0.22.1"
tun-tap = "=0.1.4"
nix = "=0.29.0"
log = "=0.4.34"
serde = { version = "=1.0.229", features = ["derive"] }
