[package]
name = "sparrow_db"
version = "0.1.0"
edition = "2021"
publish = false

[dependencies]
uuid = "1"
sha2 = "0.10"
rand = "0.8"
mime_guess = "2"
core_affinity = "0.8"
serde = { version = "1", features = ["derive"] }
serde_json = "1"
sonic-rs = "*"
bincode = "1"
heed3 = "*"
clap = { version = "4", features = ["derive"] }
dirs = "*"
