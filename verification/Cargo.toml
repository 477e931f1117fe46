[package]
name = "aslet"
version = "0.1.0"
edition = "2021"
publish = false

[dependencies]
crossbeam = "=0.8.5"
godot = "=0.5.5"
rusqlite = { version = "=0.40.2", features = ["backup", "modern_sqlite"] }
sharded-slab = "=0.1.7"
slab = "=0.4.12"
