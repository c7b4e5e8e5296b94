[package]
name = "nova_poshta"
version = "0.1.0"
edition = "2021"
publish = false

[dependencies]
serde_json = "1"
reqwest = { version = "*", default-features = false }
chrono = "0.4"
url = "2"
uuid = "1"
phonenumber = "*"
