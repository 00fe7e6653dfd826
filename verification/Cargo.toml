[package]
name = "bing_terrain"
version = "0.1.0"
edition = "2021"
publish = false

[dependencies]
anyhow = "1"
bytes = "1"
derive_more = { version = "*", features = ["display"] }
glam = "*"
num = "*"
once_cell = "1"
reqwest = { version = "0.11", default-features = false, features = ["json", "rustls-tls"] }
serde = { version = "1", features = ["derive"] }
stereokit = "*"
stereokit-sys = "*"
tokio = { version = "1", features = ["rt-multi-thread", "sync"] }
