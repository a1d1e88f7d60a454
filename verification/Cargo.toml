[package]
name = "otterlang"
version = "0.1.0"
edition = "2021"
publish = false

[dependencies]
sha1 = "0.10"
ahash = "0.8"
anyhow = "1"
clap = { version = "4", features = ["derive"] }
crossbeam-channel = "0.5"
crossbeam-deque = "0.8"
crossbeam-utils = "0.8"
parking_lot = "0.12"
once_cell = "1"
directories = "5"
sysinfo = "*"
libm = "0.2"
chrono = "0.4"
memmap2 = "0.9"
inkwell = { version = "0.4", features = ["llvm15-0"] }
serde = { version = "1", features = ["derive"] }
serde_yaml = "0.9"
rayon = "1"
colored = "2"
ariadne = "0.4"
indicatif = "0.17"
