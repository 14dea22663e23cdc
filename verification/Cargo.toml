[package]
name = "walkmap"
version = "0.1.0"
edition = "2021"
publish = false

[dependencies]
diesel = { version = "1.4", features = ["postgres"] }
rand = "0.7"
serde = { version = "1", features = ["derive"] }
uuid = { version = "0.8", features = ["v4"] }
