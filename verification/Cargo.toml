[package]
name = "non_preemptive_scheduler"
version = "0.1.0"
edition = "2021"
publish = false

[dependencies]
heapless = { version = "0.7", default-features = false }
cortex-m = "0.7"
cortex-m-rt = "0.7"
volatile-register = "0.2"
