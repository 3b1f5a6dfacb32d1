[package]
name = "gnirehtet"
version = "2.5.1"
edition = "2021"
publish = false

[dependencies]
chrono = { version = "0.4", default-features = false, features = ["clock", "std"] }
ctrlc = "3"
log = "0.4"
