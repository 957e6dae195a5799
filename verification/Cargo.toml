[package]
name = "wiinote"
version = "0.1.0"
edition = "2021"
publish = false

[dependencies]
anyhow = "*"
bluer = { version = "*", features = ["bluetoothd", "l2cap"] }
clap = { version = "*", features = ["derive"] }
futures = "*"
tokio = { version = "*", features = ["full"] }
uinput = "*"
