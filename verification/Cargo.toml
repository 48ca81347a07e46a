[package]
name = "izzymonitor"
version = "0.1.0"
edition = "2021"
publish = false

[dependencies]
critical-section = "*"
display-interface-spi = "*"
embassy-executor = "*"
embassy-net = "*"
embassy-time = "*"
embedded-graphics = "*"
embedded-hal = "*"
esp-alloc = "*"
esp-backtrace = "*"
esp-hal = "*"
esp-hal-embassy = "*"
esp-hal-smartled = "*"
esp-println = "*"
esp-wifi = "*"
futures = "*"
heapless = "0.8"
log = "*"
smart-leds = "*"
smoltcp = "*"
st7735-lcd = "*"
