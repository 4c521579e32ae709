[package]
name = "rcar"
version = "0.1.0"
edition = "2021"
publish = false

[dependencies]
array-concat = "=0.5.5"
cortex-m = "=0.7.10"
defmt = "0.3"
defmt-rtt = "=0.4.2"
embassy-executor = { version = "=0.5.1", features = ["integrated-timers"] }
embassy-futures = "=0.1.2"
embassy-nrf = { version = "=0.1.0", features = ["nrf52833", "time-driver-rtc1", "gpiote"] }
embassy-sync = "=0.5.0"
embassy-time = "=0.3.2"
heapless = "=0.8.0"
microbit-bsp = "=0.3.0"
micromath = "=2.1.0"
nrf-softdevice = "=0.1.0"
panic-probe = "=0.3.2"
ringbuffer = "=0.15.0"
static_cell = "=2.1.1"
