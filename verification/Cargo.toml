[package]
name = "codlinux"
version = "0.1.0"
edition = "2021"
publish = false

[dependencies]
md5 = "=0.7.0"
chrono = { version = "=0.4.45", features = ["serde"] }
reqwest = { version = "=0.12.28", features = ["json", "stream"] }
serde = { version = "=1.0.229", features = ["derive"] }
futures-util = "=0.3.34"
relm4 = "=0.9.1"
sysinfo = "=0.39.6"
compile-time = "=0.4.0"
tokio = { version = "=1.54.1", features = ["fs", "io-util"] }
