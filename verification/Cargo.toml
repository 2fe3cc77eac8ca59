[package]
name = "vehicle_node"
version = "0.1.0"
edition = "2021"
publish = false

[dependencies]
heapless = "=0.8.0"
embedded-graphics = "=0.8.2"
minimq = "=0.9.0"
static_cell = "=2.1.1"
cortex-m = "=0.7.10"
cortex-m-rt = "=0.7.7"
defmt = "=1.2.0"
serde_json = "1"
anyhow = "1"
clap = { version = "4", features = ["derive"] }
