[package]
name = "loony_rs_runtime"
version = "0.1.0"
edition = "2021"
publish = false

[dependencies]
crossbeam = "0.8"
mio = { version = "1", features = ["os-poll", "os-ext"] }
parking_lot = "0.12"
slab = "0.4"
tokio = { version = "1", features = ["macros", "rt-multi-thread"] }
