[package]
name = "named_lock"
version = "0.1.0"
edition = "2021"
publish = false

[dependencies]
libc = "=0.2.191"
once_cell = "=1.21.4"
parking_lot = "=0.12.5"
thiserror = "=1.0.69"
windows = { version = "=0.52.0", features = ["Win32_Foundation", "Win32_Security", "Win32_System_Threading"] }

[dev-dependencies]
uuid = { version = "=1.29.0", features = ["v4"] }
