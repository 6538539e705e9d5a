[package]
name = "crash_handler"
version = "0.1.0"
edition = "2021"
publish = false

[dependencies]
windows = { version = "0.56", features = ["Win32_Foundation", "Win32_System_Diagnostics_Debug", "Win32_System_Kernel", "Win32_System_Threading"] }
