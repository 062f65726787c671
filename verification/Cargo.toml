[package]
name = "air_dashboard"
version = "0.1.0"
edition = "2021"
publish = false

[dependencies]
bmp5 = "=0.2.2"
defmt = "=1.2.0"
defmt-rtt = "=1.3.1"
embassy-embedded-hal = "=0.4.0"
embassy-executor = { version = "=0.7.0", features = ["arch-std", "executor-thread"] }
embassy-futures = "=0.1.2"
embassy-sync = { version = "=0.7.2", features = ["std"] }
embassy-time = "=0.4.0"
heapless = "=0.8.0"
libm = "=0.2.16"
libscd = { version = "=0.5.1", features = ["async", "defmt", "scd4x"] }
microbit-bsp = { version = "=0.4.0", default-features = false }
panic-probe = { version = "=1.0.0", features = ["print-defmt"] }
static_cell = "=2.1.1"
