[package]
name = "download_metadata"
version = "0.1.0"
edition = "2021"
publish = false

[dependencies]
url = "*"
serde_json = "*"
serde = { version = "*", features = ["derive"] }
chrono = { version = "*", features = ["serde"] }
reqwest = { version = "*", default-features = false, features = ["json"] }
sea-orm = { version = "*", default-features = false, features = ["macros", "with-json"] }
async-trait = "*"
bs58 = "*"
cadence = "*"
cadence-macros = "*"
