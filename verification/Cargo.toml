[package]
name = "stm32f1_demo"
version = "0.1.0"
edition = "2021"
publish = false

[dependencies]
stm32f1xx-hal = { version = "0.10", features = ["stm32f103", "rt", "medium"] }
cortex-m = "0.7"
cortex-m-rt = "0.7"
defmt = "0.3"
defmt-rtt = "0.4"
panic-probe = { version = "0.3", features = ["print-defmt"] }
panic-halt = "0.2"
fugit = "0.3"
