[package]
name = "imgconv"
version = "0.1.0"
edition = "2021"
publish = false

[dependencies]
anyhow = "=1.0.104"
bytemuck = { version = "=1.25.2", features = ["extern_crate_alloc"] }
clap = { version = "=4.6.7", features = ["derive"] }
image = "=0.25.10"
