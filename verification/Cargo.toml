[package]
name = "esp_demos"
version = "0.1.0"
edition = "2021"
publish = false

[dependencies]
anyhow = "1"
critical-section = { version = "1.2", features = ["std"] }
embassy-executor = "0.7"
embassy-time = "0.4"
embedded-graphics = "0.8"
embedded-hal-bus = "0.3"
esp-backtrace = "0.17"
esp-bootloader-esp-idf = "0.2"
esp-hal = "=1.0.0-rc.0"
esp-hal-embassy = "0.9"
esp-idf-hal = "0.45"
esp-idf-svc = "0.51"
esp-println = "0.15"
log = "0.4"
ssd1306 = "0.10"
tinybmp = "0.6"
toml-cfg = "0.2"
u8g2-fonts = "*"
