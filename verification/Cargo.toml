[package]
name = "atspi_stats"
version = "0.1.0"
edition = "2021"
publish = false

[dependencies]
atspi = "=0.30.0"
chrono = "=0.4.45"
ctrlc = "=3.5.2"
tokio = { version = "=1.53.2", features = ["macros", "rt-multi-thread", "sync"] }
tokio-stream = "=0.1.19"
