[package]
name = "uber-mm"
version = "0.1.0"
edition = "2021"
publish = false

[dependencies]
anchor-lang = "0.26"
bytemuck = "1"
phoenix-v1 = { version = "0.2", features = ["no-entrypoint"] }
