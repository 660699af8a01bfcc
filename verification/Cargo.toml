[package]
name = "shelflife"
version = "0.1.0"
edition = "2021"
publish = false

[dependencies]
chrono = "0.4"
prettytable-rs = { version = "0.10", default-features = false }
clap = "2"
dotenv = "0.15"
log = "0.4"
serde = { version = "1", features = ["derive"] }
reqwest = { version = "0.12", features = ["blocking", "json"] }
mongodb = { version = "3", features = ["sync"] }
lettre = "0.9"
lettre_email = "0.9"
parking_lot = "0.12"
tokio = { version = "1", features = ["macros", "rt-multi-thread"] }
warp = { version = "0.3", default-features = false }
