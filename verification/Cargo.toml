[package]
name = "microbit_tetris"
version = "0.1.0"
edition = "2021"
publish = false

[dependencies]
nanorand = "0.7"
microbit-v2 = "0.13"
cortex-m = "0.7"
cortex-m-rt = "0.7"
embedded-hal = "0.2"
lsm303agr = "0.2"
rtt-target = { version = "0.3.1", features = ["cortex-m"] }
panic-rtt-target = { version = "0.1.2", features = ["cortex-m"] }
