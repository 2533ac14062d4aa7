[package]
name = "frtosrs"
version = "0.1.0"
edition = "2021"
publish = false

[dependencies]
freertos-rust = "=0.2.0"
stm32h7xx-hal = { version = "=0.14.0", features = ["stm32h743v", "usb_hs"] }
stm32f4xx-hal = { version = "=0.14.0", features = ["stm32f411"] }
usb-device = "=0.2.9"
usbd-serial = "=0.1.1"
nb = "=1.1.0"
cortex-m = "=0.7.7"
cortex-m-rt = "=0.7.7"
lazy_static = { version = "=1.5.1", features = ["spin_no_std"] }
panic-halt = "=0.2.0"
