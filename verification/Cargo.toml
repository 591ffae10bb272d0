[package]
name = "conformity"
version = "0.1.0"
edition = "2021"
publish = false

[dependencies]
heapless = "=0.7.17"
cobs = "=0.3.0"
postcard = { version = "=1.1.3", features = ["heapless", "use-std"] }
serde = { version = "=1.0.229", features = ["derive"] }
rand = "=0.9.5"
embedded-hal = "=1.0.0"
rtt-target = "=0.6.2"
clap = { version = "=4.6.7", features = ["derive"] }
toml = "=0.8.23"
tracing = "=0.1.44"
parking_lot = "=0.12.5"
object = "=0.36.7"
defmt-decoder = "=1.2.0"
defmt-parser = "=1.1.0"
probe-rs = "*"
