[package]
name = "redbookmaster"
version = "0.1.0"
edition = "2021"
publish = false

[dependencies]
chrono = { version = "0.4", features = ["serde"] }
regex = "1"
serde = { version = "1", features = ["derive"] }
serde_json = "1"
hound = "3.5"
rubato = "0.15"
rodio = { version = "0.19", default-features = false, features = ["wav"] }
thiserror = "1"
clap = { version = "4", features = ["derive"] }
colored = "2"
indicatif = "0.17"
inquire = "0.7"
termios = "0.3"
crossbeam-channel = "0.5"
parking_lot = "0.12"
