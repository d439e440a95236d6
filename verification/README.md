# esp_demos

The decisions of a set of ESP32-C3 demo firmwares, verified with Verus.

- `src/button.rs` — the button interrupt: press counter and the blink effect it switches.
- `src/buzzer.rs` — the breathing fade cycle of the buzzer's LEDC channel, the
  busy-wait decision and the panic policy.
- `src/led_server.rs` — the HTTP LED server: handler table and what each
  handler does to the pin and answers.
- `src/wifi_config.rs` — the build-time Wi-Fi settings.
- `src/oled.rs` — loading the animation's bitmaps (through `tinybmp`) and the
  frame schedule of the OLED animation.
- `app/` — the firmwares themselves: peripherals, drawing, HTTP transport.
- `tests/` — tests of the library on concrete values.
