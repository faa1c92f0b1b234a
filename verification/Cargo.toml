[package]
name = "shape_plan_cache"
version = "0.1.0"
edition = "2021"
publish = false

[dependencies]
hashbrown = "=0.17.1"
rustybuzz = "=0.20.1"

[dev-dependencies]
ordered-float = "=5.5.0"
