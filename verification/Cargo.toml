[package]
name = "radiko_recorder"
version = "0.1.0"
edition = "2021"
publish = false

[dependencies]
base64 = "*"
chrono = "*"
clap = { version = "4", features = ["derive"] }
fern = { version = "*", features = ["colored"] }
log = "*"
reqwest = { version = "*", default-features = false, features = ["blocking"] }
