[package]
name = "gitignore_templates"
version = "0.1.0"
edition = "2021"
publish = false

[dependencies]
anyhow = "1"
colored = "*"
directories = "*"
indicatif = { version = "*", features = ["rayon"] }
lazy_static = "1"
pico-args = "0.5"
rayon = "1"
reqwest = { version = "0.12", default-features = false, features = ["blocking", "json", "rustls-tls"] }
serde_json = "1"
