[package]
name = "parse_cve"
version = "0.1.0"
edition = "2021"
publish = false

[dependencies]
chrono = "0.4"
flate2 = "1"
clap = { version = "4", features = ["derive"] }
config = "0.13"
postgres = { version = "0.19", features = ["with-chrono-0_4", "with-serde_json-1"] }
reqwest = { version = "0.11", features = ["blocking"] }
serde = "1"
serde_derive = "1"
serde_json = "1"
