[package]
name = "action_tape"
version = "0.1.0"
edition = "2021"
publish = false

[dependencies]
cortex-m = "=0.7.10"
cortex-m-rt = "=0.7.7"
defmt = "=1.2.0"
defmt-rtt = "=1.3.1"
embedded-alloc = "=0.7.0"
embedded-hal = "=1.0.0"
panic-probe = { version = "=1.0.0", features = ["print-defmt"] }
rp-pico = "=0.9.0"
