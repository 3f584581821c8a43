[package]
name = "io_board"
version = "0.1.0"
edition = "2021"
publish = false

[dependencies]
crc = "=3.4.0"
heapless = "=0.9.3"
zencan-common = "=0.0.5"
embassy-time = { version = "=0.5.1", features = ["tick-hz-1_000_000"] }
embassy-sync = "=0.8.0"
embassy-executor = "=0.10.0"
embassy-embedded-hal = "=0.6.0"
embassy-stm32 = { version = "=0.6.0", features = ["stm32f105rc", "time-driver-tim4", "unstable-pac", "exti"] }
embedded-storage-async = "=0.4.2"
embedded-hal-async = "=1.0.0"
static_cell = "=2.1.1"
cortex-m = "=0.7.10"
zencan-node = "=0.0.5"
