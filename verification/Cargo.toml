[package]
name = "scryfall_sdk_rust"
version = "0.1.0"
edition = "2021"
publish = false

[dependencies]
reqwest = { version = "=0.13.5", features = ["blocking"] }
serde_json = "=1.0.151"
url = "=2.5.8"
uuid = "=1.27.0"
time = { version = "=0.3.55", features = ["parsing"] }

[dev-dependencies]
httpmock = "=0.8.3"
