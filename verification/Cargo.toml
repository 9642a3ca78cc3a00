[package]
name = "bevy_predicate_filter"
version = "0.1.0"
edition = "2021"
publish = false

[dependencies]
bevy_ecs = { version = "0.14", default-features = false }
