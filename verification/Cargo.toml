[package]
name = "notan_sketches"
version = "0.1.0"
edition = "2021"
publish = false

[dependencies]
notan = { version = "=0.14.0", default-features = false, features = ["log", "random"] }
palette = "=0.7.7"
serde = { version = "=1.0.229", features = ["derive"] }
image = { version = "=0.25.10", default-features = false, features = ["png"] }
