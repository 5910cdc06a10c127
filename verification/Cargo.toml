[package]
name = "travel_emissions"
version = "0.1.0"
edition = "2021"
publish = false

[dependencies]
serde = { version = "=1.0.229", features = ["derive"] }
reqwest = { version = "=0.13.5", default-features = false, features = ["json", "blocking"] }
tokio = { version = "=1.53.2", features = ["rt-multi-thread", "macros"] }
warp = { version = "=0.4.3", default-features = false, features = ["server"] }
