[package]
name = "osuwapp"
version = "0.1.0"
edition = "2021"
publish = false

[dependencies]
rosu-mods = "=0.4.1"
rosu-pp = "=4.0.1"
rosu-map = "=0.2.1"
rosu-mem = "=3.0.0"
rosu-memory-lib = "=1.3.1"
serde = { version = "1", features = ["derive"] }
serde_json = "1"
log = "0.4"
fontdue = "=0.9.5"
tokio = { version = "1", features = ["rt", "time"] }
