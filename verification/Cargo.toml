[package]
name = "entity_map"
version = "0.1.0"
edition = "2021"
publish = false

[dependencies]
bevy_utils = "0.11"
