[package]
name = "hydroponic_node"
version = "0.1.0"
edition = "2021"
publish = false

[dependencies]
anyhow = "1"
log = "0.4"
serde = { version = "1", features = ["derive"] }
serde_json = "1"
embedded-hal = "1"
nb = "1"
ads1x1x = "0.3"
esp-idf-hal = "*"
esp-idf-svc = "*"
