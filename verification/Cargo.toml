[package]
name = "router_toggle"
version = "0.1.0"
edition = "2021"
publish = false

[dependencies]
thirtyfour = "*"
tokio = { version = "*", features = ["macros", "rt-multi-thread", "fs", "time"] }
