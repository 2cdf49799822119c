[package]
name = "intro_rust"
version = "0.1.0"
edition = "2021"
publish = false

[dependencies]
async-trait = "0.1"
once_cell = "1"
tokio = { version = "1", features = ["macros", "rt-multi-thread"] }
warp = { version = "0.3", default-features = false }
