[package]
name = "soro_gps"
version = "0.1.0"
edition = "2021"
publish = false

[dependencies]
libsbf = "=0.17.0"
serialport = { version = "=4.10.1", default-features = false }
tracing = "=0.1.44"
tracing-subscriber = "=0.3.23"
tokio = { version = "=1.54.1", features = ["rt-multi-thread", "macros", "net", "sync", "signal", "time"] }
tokio-tungstenite = "=0.30.0"
tungstenite = "=0.30.0"
futures-util = { version = "=0.3.34", features = ["sink"] }
safe_drive = "=0.4.3"
