[package]
name = "imessage_reader"
version = "0.1.0"
edition = "2021"
publish = false

[dependencies]
chrono = { version = "=0.4.45", default-features = false, features = ["std"] }
clap = { version = "=4.6.7", features = ["derive"] }
eframe = { version = "=0.36.2", default-features = false, features = ["glow", "x11"] }
egui = "=0.36.2"
eyre = "=0.6.14"
sqlx = { version = "=0.9.0", default-features = false, features = ["sqlite", "runtime-tokio"] }
tokio = { version = "=1.53.2", features = ["rt-multi-thread", "macros"] }
