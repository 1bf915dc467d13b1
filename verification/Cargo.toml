[package]
name = "efm32hg_hal"
version = "0.1.0"
edition = "2021"
publish = false

[dependencies]
cortex-m = "=0.7.10"
cortex-m-rt = "=0.7.7"
efm32hg309f64-pac = { version = "=0.2.1", features = ["rt"] }
embedded-hal = { version = "=0.2.7", features = ["unproven"] }
