[package]
name = "imagenex831l"
version = "0.1.0"
edition = "2021"
publish = false

[dependencies]
binrw = "*"
chrono = { version = "0.4", default-features = false, features = ["std"] }
clap = { version = "4", features = ["derive"] }
log = "0.4"
memmap2 = "0.9"
thiserror = "1"
