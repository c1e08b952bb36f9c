[package]
name = "linear_core"
version = "0.1.0"
edition = "2021"
publish = false

[dependencies]
base64 = "0.22"
sha2 = "0.10"
rand = "0.8"
url = "2"
chrono = "0.4"
serde_json = "1"
directories = "5"
open = "5"
reqwest = { version = "0.12", default-features = false, features = ["blocking"] }
