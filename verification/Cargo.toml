[package]
name = "ruty"
version = "0.1.0"
edition = "2021"
publish = false

[dependencies]
global-hotkey = "0.6"
uuid = { version = "1", features = ["v4"] }
signal-hook = "0.3"
tokio = { version = "1", features = ["rt-multi-thread", "time", "macros"] }
tracing = "0.1"
tracing-subscriber = { version = "0.3", features = ["env-filter"] }
reqwest = { version = "0.12", default-features = false, features = ["json"] }
serde = { version = "1", features = ["derive"] }
iced = { version = "0.13", default-features = false, features = ["tiny-skia", "tokio"] }
