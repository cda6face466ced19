[package]
name = "parq"
version = "0.1.0"
edition = "2021"
publish = false

[dependencies]
anyhow = "1"
byte-unit = "5"
chrono = "0.4"
clap = { version = "4", features = ["derive"] }
crossterm = "*"
num-format = "0.4"
object_store = { version = "*", features = ["aws"] }
parquet = { version = "*", features = ["async", "object_store"] }
ratatui = "*"
thiserror = "2"
tokio = { version = "1", features = ["rt-multi-thread"] }
url = "2"
