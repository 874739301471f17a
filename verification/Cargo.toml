[package]
name = "powerlimit"
version = "0.1.0"
edition = "2021"
publish = false

[dependencies]
byteorder = "1"
num_cpus = "1"
crossbeam-channel = "0.5"
dbus = "0.9"
serde = { version = "1", features = ["derive"] }
toml = "0.8"
