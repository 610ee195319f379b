[package]
name = "rcwi"
version = "0.1.0"
edition = "2021"
publish = false

[dependencies]
indicium = "=0.6.10"
kstring = "=2.0.2"
time = { version = "=0.3.55", features = ["parsing", "formatting"] }
arboard = { version = "*", default-features = false }
aws-config = { version = "*", default-features = false }
aws-sdk-cloudwatchlogs = { version = "*", default-features = false }
tokio = { version = "1", features = ["rt", "time"] }
crossterm = "0.25"
tui = "0.19"
unicode-width = "*"
home = "*"
flexi_logger = "*"
log = "*"
tempfile = "*"
