[package]
name = "battlebit_status"
version = "0.1.0"
edition = "2021"
publish = false

[dependencies]
ab_glyph = "=0.2.32"
anyhow = "=1.0.104"
chrono = "=0.4.45"
confy = "=2.0.0"
flexi_logger = "=0.31.10"
image = "=0.25.10"
imageproc = "=0.27.0"
log = "=0.4.34"
reqwest = "=0.13.5"
serde = { version = "=1.0.229", features = ["derive"] }
serde_json = "=1.0.151"
serenity = "=0.12.5"
tokio = { version = "=1.53.2", features = ["macros", "rt-multi-thread", "time"] }
warp = { version = "=0.4.3", features = ["server"] }
