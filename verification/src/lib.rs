//! Decision logic of a set of ESP32-C3 demo firmwares: a button press counter,
//! a breathing buzzer/LED fade, an HTTP-controlled LED, and an OLED animation.
//! The hardware work (GPIO, LEDC, SPI, Wi-Fi, HTTP transport) stays with the
//! firmware around this crate; what is decided is stated and proved here.

pub mod button;
pub mod buzzer;
pub mod led_server;
pub mod wifi_config;
pub mod oled;
