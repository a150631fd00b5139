[package]
name = "chords"
version = "0.1.0"
edition = "2021"
publish = false

[dependencies]
keycode = "=1.0.0"
serde = { version = "=1.0.229", features = ["derive"] }
serde_json = "=1.0.154"
toml = "=1.1.8"
jsonc-parser = { version = "=0.34.0", features = ["preserve_order"] }
walkdir = "=2.5.0"
include_dir = "=0.7.4"
log = "=0.4.35"
anyhow = "=1.0.104"
bitflags = "=2.13.2"
rdev = "=0.5.3"
device_query = "=4.0.1"
fast_radix_trie = "*"
