[package]
name = "screen-wake-lock"
version = "0.1.0"
edition = "2021"
publish = false

[dependencies]
cfg-if = "=1.0.5"
thiserror = "=2.0.21"
zbus = "5"
objc2-core-foundation = "=0.3.2"
objc2-io-kit = "=0.3.2"
windows = { version = "=0.62.2", features = ["Win32_Foundation", "Win32_System_Power", "Win32_System_Threading"] }
