[package]
name = "galatea"
version = "0.1.0"
edition = "2021"
publish = false

[dependencies]
moka = { version = "=0.12.16", features = ["sync"] }
dunce = "=1.0.5"
regex = "=1.13.1"
goblin = "=0.8.2"
md-5 = "=0.10.6"
hex = "=0.4.3"
chrono = { version = "=0.4.45", features = ["serde"] }
serde = { version = "1", features = ["derive"] }
serde_json = "1"
r2d2 = "0.8"
r2d2_sqlite = { version = "*", features = ["bundled"] }
uuid = { version = "1", features = ["v4", "serde"] }
threadpool = "1"
ctrlc = "3"
