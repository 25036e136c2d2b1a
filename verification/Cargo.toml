[package]
name = "nightingale"
version = "0.1.0"
edition = "2021"
publish = false

[dependencies]
blake3 = "1"
urlencoding = "2"
dirs = "6"
walkdir = "2"
ureq = { version = "3", features = ["json"] }
lofty = "0.22"
hound = "3"
pitch-detection = "0.3"
serde = { version = "1", features = ["derive"] }
serde_json = "1"
dotenvy = "0.15"
