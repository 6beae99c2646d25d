[package]
name = "e_chess"
version = "0.1.0"
edition = "2021"
publish = false

[dependencies]
chess = "=3.2.0"
serde = { version = "=1.0.229", features = ["derive"] }
serde_json = "=1.0.154"
thiserror = "1"
log = "=0.4.35"
urlencoding = "=2.1.3"
colored = "=2.2.0"
futures-util = "=0.3.34"
tokio = { version = "=1.54.1", features = ["rt-multi-thread", "macros"] }
reqwest = { version = "=0.12.28", default-features = false, features = ["rustls-tls", "stream"] }
debouncr = "*"
heapless = "0.8"
maud = "*"
smart-leds = "*"
embedded-graphics = "*"
embedded-hal = "*"
epd-waveshare = "*"
embedded-svc = "*"
esp-idf-sys = "*"
esp-idf-hal = "*"
esp-idf-svc = "*"
esp32-nimble = "*"
esp-ota = "*"
ws2812-esp32-rmt-driver = "*"
