[package]
name = "energy_panel"
version = "0.1.0"
edition = "2021"
publish = false

[dependencies]
anyhow = "1"
embedded-graphics = "0.7"
embedded-hal = "0.2"
embedded-websocket = "0.9"
epd-waveshare = "0.5"
esp-idf-hal = "0.42"
esp-idf-svc = "0.47"
log = "0.4"
rand = "0.8"
serde = { version = "1", features = ["derive"] }
serde_json = "1"
