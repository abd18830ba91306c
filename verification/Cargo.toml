[package]
name = "execution_plan"
version = "0.1.0"
edition = "2021"
publish = false

[dependencies]
serde = { version = "*", features = ["derive"] }
chrono = "*"
http = "*"
thiserror = "*"
euler = "*"
enum-iterator = "*"
parse-display = "*"
schemars = "*"
