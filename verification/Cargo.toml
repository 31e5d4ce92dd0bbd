[package]
name = "weather_sensor"
version = "0.1.0"
edition = "2021"
publish = false

[dependencies]
bme280 = "0.5"
embedded-hal = "1.0"
esp-alloc = "0.9"
esp-bootloader-esp-idf = { version = "0.4", features = ["esp32c3"] }
esp-hal = { version = "1.0", features = ["esp32c3", "unstable"] }
esp-println = { version = "0.16", features = ["esp32c3", "log-04"] }
esp-radio = { version = "0.17", features = ["esp32c3", "wifi", "esp-alloc", "unstable"] }
esp-rtos = { version = "0.2", features = ["esp32c3", "esp-radio", "esp-alloc"] }
log = "0.4"
