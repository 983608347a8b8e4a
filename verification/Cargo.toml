[package]
name = "nordic_switch"
version = "0.1.0"
edition = "2021"
publish = false

[dependencies]
assign-resources = "=0.5.0"
defmt = "=1.2.0"
embassy-sync = "=0.8.0"
embassy-time = "=0.5.1"
futures = { version = "=0.3.34", default-features = false }
git-version = "=0.3.9"
heapless = "=0.8.0"

[dev-dependencies]
critical-section = { version = "=1.2.0", features = ["std"] }
