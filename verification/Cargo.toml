[package]
name = "kinitos"
version = "0.1.0"
edition = "2021"
publish = false

[dependencies]
lazy_static = { version = "1.4", features = ["spin_no_std"] }
spin = "0.5"
uart_16550 = "0.2"
volatile = "0.2"
