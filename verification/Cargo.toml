[package]
name = "render_pool"
version = "0.1.0"
edition = "2021"
publish = false

[dependencies]
lru = "=0.12.5"
tokio = { version = "=1.54.1", features = ["macros", "rt-multi-thread", "sync", "time"] }
warp = "=0.3.7"
serde = { version = "=1.0.229", features = ["derive"] }
headless_chrome = "=0.9.0"
