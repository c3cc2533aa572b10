[package]
name = "talpid-core"
version = "0.1.0"
edition = "2021"
publish = false

[dependencies]
err-derive = "0.3"
futures = "0.3"
log = "0.4"
tokio = { version = "1", features = ["rt"] }
winapi = { version = "0.3", features = ["ifdef", "in6addr", "inaddr", "netioapi", "nldef", "ntdef", "winerror", "ws2def", "ws2ipdef"] }
