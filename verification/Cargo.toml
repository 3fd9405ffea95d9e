[package]
name = "grammers_client"
version = "0.1.0"
edition = "2021"
publish = false

[dependencies]
chrono = { version = "=0.4.45", default-features = false }
futures-util = { version = "=0.3.34", default-features = false, features = ["alloc"] }
grammers-mtsender = "=0.7.0"
grammers-session = "=0.7.0"
grammers-tl-types = "=0.7.0"
tokio = { version = "=1.54.1", features = ["macros", "rt", "signal", "sync"] }
