[package]
name = "waitpid-any"
version = "0.3.0"
edition = "2021"
publish = false

[dependencies]
rustix = { version = "=1.1.5", features = ["event", "process", "time"] }
windows-sys = { version = "=0.61.2", features = ["Win32_Foundation", "Win32_System_Threading"] }

[dev-dependencies]
crossbeam-utils = "0.8"
subprocess = "0.2"
