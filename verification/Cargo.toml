[package]
name = "lagarto_ctrl"
version = "0.1.0"
edition = "2021"
publish = false

[dependencies]
rustc-hash = "*"
arrayvec = "*"
serde = { version = "*", features = ["derive"] }
serde_json = "*"
thiserror = "*"
num_enum = "*"
strum_macros = "*"
parking_lot = "*"
lazy_static = "*"
minreq = "*"
paho-mqtt = "*"
rusqlite = { version = "*", features = ["bundled"] }
