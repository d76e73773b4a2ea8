[package]
name = "relativedelta"
version = "0.1.0"
edition = "2021"
publish = false

[dependencies]
time = "*"
chrono = "*"
serde = { version = "*", features = ["derive"] }
thiserror = "*"
num-traits = "*"
