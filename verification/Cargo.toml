[package]
name = "dewi_reservations"
version = "0.1.0"
edition = "2021"
publish = false

[dependencies]
actix-rt = "2"
actix-web = { version = "4", default-features = false }
awc = { version = "3", default-features = false }
chrono = { version = "0.4", features = ["serde"] }
chrono-tz = "0.10"
ics = "0.5"
serde = { version = "1", features = ["derive"] }
